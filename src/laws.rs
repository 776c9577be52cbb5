//! The laws the move engine obeys, stated over the lattice model.
use vstd::prelude::*;

use crate::lattice::{
    inverse_rotation, lemma_four_quarters, lemma_turn_coord, lemma_turn_coord_injective, turn_coord, Axis, Coord,
    Orientation, Piece, SideRotation,
};
use crate::moving::{apply_move, apply_moves, moved, turn_piece, SideMoveEvent};

verus! {

/// Every piece is on the lattice and the pieces occupy each of the 27 lattice
/// coordinates exactly once.
pub open spec fn lattice_bijection(s: Seq<Piece>) -> bool {
    &&& s.len() == 27
    &&& all_lattice(s)
    &&& distinct_positions(s)
    &&& covers_lattice(s)
}

pub open spec fn all_lattice(s: Seq<Piece>) -> bool {
    forall|i: int| 0 <= i < s.len() ==> (#[trigger] s[i]).is_lattice()
}

/// No two pieces share a coordinate.
#[verifier::opaque]
pub open spec fn distinct_positions(s: Seq<Piece>) -> bool {
    forall|i: int, j: int|
        0 <= i < s.len() && 0 <= j < s.len() && i != j ==> (#[trigger] s[i]).init_pos
            != (#[trigger] s[j]).init_pos
}

/// Every lattice coordinate holds a piece.
#[verifier::opaque]
pub open spec fn covers_lattice(s: Seq<Piece>) -> bool {
    forall|c: Coord|
        c.is_lattice() ==> exists|i: int| 0 <= i < s.len() && (#[trigger] s[i]).init_pos == c
}

/// The piece at index `i` of a freshly built cube: x varies slowest, z fastest.
pub open spec fn solved_piece(i: int) -> Piece {
    Piece {
        init_pos: Coord { x: (i / 9 - 1) as i8, y: ((i / 3) % 3 - 1) as i8, z: (i % 3 - 1) as i8 },
        orientation: Orientation::identity(),
    }
}

/// The solved cube: all 27 lattice coordinates in order, every piece unturned.
pub open spec fn solved_pieces() -> Seq<Piece> {
    Seq::new(27, |i: int| solved_piece(i))
}

/// The solved cube is a bijection between pieces and lattice coordinates.
pub proof fn lemma_solved_bijection()
    ensures
        lattice_bijection(solved_pieces()),
{
    let s = solved_pieces();
    reveal(distinct_positions);
    reveal(covers_lattice);
    assert forall|i: int| 0 <= i < s.len() implies (#[trigger] s[i]).is_lattice() by {}
    assert forall|i: int, j: int|
        0 <= i < s.len() && 0 <= j < s.len() && i != j implies (#[trigger] s[i]).init_pos
        != (#[trigger] s[j]).init_pos by {}
    assert forall|c: Coord| c.is_lattice() implies exists|i: int|
        0 <= i < s.len() && (#[trigger] s[i]).init_pos == c by {
        let i = (c.x + 1) * 9 + (c.y + 1) * 3 + (c.z + 1);
        assert(s[i].init_pos == c);
    }
}

/// A completed move keeps the pieces a bijection onto the lattice.
pub proof fn lemma_move_keeps_bijection(s: Seq<Piece>, m: SideMoveEvent)
    requires
        lattice_bijection(s),
    ensures
        lattice_bijection(apply_move(s, m)),
{
    lemma_move_keeps_lattice(s, m);
    lemma_move_keeps_distinct(s, m);
    lemma_move_keeps_cover(s, m);
}

proof fn lemma_move_keeps_lattice(s: Seq<Piece>, m: SideMoveEvent)
    requires
        all_lattice(s),
    ensures
        all_lattice(apply_move(s, m)),
{
    let t = apply_move(s, m);
    let axis = m.side.0;
    let rot = m.rotate;
    assert forall|i: int| 0 <= i < t.len() implies (#[trigger] t[i]).is_lattice() by {
        assert(s[i].is_lattice());
        lemma_turn_coord(axis, rot, s[i].init_pos);
        lemma_turn_coord(axis, rot, s[i].orientation.right);
        lemma_turn_coord(axis, rot, s[i].orientation.up);
        lemma_turn_coord(axis, rot, s[i].orientation.front);
    }
}

proof fn lemma_moved_distinct(m: SideMoveEvent, p: Piece, q: Piece)
    requires
        p.is_lattice(),
        q.is_lattice(),
        p.init_pos != q.init_pos,
    ensures
        moved(m, p).init_pos != moved(m, q).init_pos,
{
    let axis = m.side.0;
    let rot = m.rotate;
    lemma_turn_coord(axis, rot, p.init_pos);
    lemma_turn_coord(axis, rot, q.init_pos);
    if m.selects(p) && m.selects(q) && moved(m, p).init_pos == moved(m, q).init_pos {
        lemma_turn_coord_injective(axis, rot, p.init_pos, q.init_pos);
    }
}

proof fn lemma_move_keeps_distinct(s: Seq<Piece>, m: SideMoveEvent)
    requires
        all_lattice(s),
        distinct_positions(s),
    ensures
        distinct_positions(apply_move(s, m)),
{
    reveal(distinct_positions);
    let t = apply_move(s, m);
    assert forall|i: int, j: int|
        0 <= i < t.len() && 0 <= j < t.len() && i != j implies (#[trigger] t[i]).init_pos
        != (#[trigger] t[j]).init_pos by {
        assert(s[i].is_lattice() && s[j].is_lattice());
        assert(s[i].init_pos != s[j].init_pos);
        lemma_moved_distinct(m, s[i], s[j]);
    }
}

/// The coordinate that move `m` carries onto `c`.
pub open spec fn preimage(m: SideMoveEvent, c: Coord) -> Coord {
    if c.component(m.side.0) == m.side.1 {
        turn_coord(m.side.0, inverse_rotation(m.rotate), c)
    } else {
        c
    }
}

proof fn lemma_preimage(m: SideMoveEvent, c: Coord, p: Piece)
    requires
        c.is_lattice(),
        p.init_pos == preimage(m, c),
    ensures
        preimage(m, c).is_lattice(),
        moved(m, p).init_pos == c,
{
    lemma_turn_coord(m.side.0, m.rotate, c);
    lemma_turn_coord(m.side.0, inverse_rotation(m.rotate), c);
}

proof fn lemma_move_keeps_cover(s: Seq<Piece>, m: SideMoveEvent)
    requires
        covers_lattice(s),
    ensures
        covers_lattice(apply_move(s, m)),
{
    reveal(covers_lattice);
    let t = apply_move(s, m);
    assert forall|c: Coord| c.is_lattice() implies exists|i: int|
        0 <= i < t.len() && (#[trigger] t[i]).init_pos == c by {
        let c0 = preimage(m, c);
        lemma_turn_coord(m.side.0, inverse_rotation(m.rotate), c);
        assert(c0.is_lattice());
        let i = choose|i: int| 0 <= i < s.len() && (#[trigger] s[i]).init_pos == c0;
        lemma_preimage(m, c, s[i]);
        assert(t[i].init_pos == c);
    }
}

/// From any bijection, and so from the solved cube, every finite sequence of
/// completed moves leads to a bijection again.
pub proof fn lemma_moves_keep_bijection(s: Seq<Piece>, ms: Seq<SideMoveEvent>)
    requires
        lattice_bijection(s),
    ensures
        lattice_bijection(apply_moves(s, ms)),
    decreases ms.len(),
{
    if ms.len() > 0 {
        lemma_move_keeps_bijection(s, ms[0]);
        lemma_moves_keep_bijection(apply_move(s, ms[0]), ms.drop_first());
    }
}

/// Every state reached from the solved cube by completed moves is a
/// bijection between pieces and lattice coordinates.
pub proof fn lemma_reachable_bijection(ms: Seq<SideMoveEvent>)
    ensures
        lattice_bijection(apply_moves(solved_pieces(), ms)),
{
    lemma_solved_bijection();
    lemma_moves_keep_bijection(solved_pieces(), ms);
}

/// Applying a queue of moves and then one more is applying the longer queue.
pub proof fn lemma_apply_moves_push(s: Seq<Piece>, ms: Seq<SideMoveEvent>, m: SideMoveEvent)
    ensures
        apply_moves(s, ms.push(m)) == apply_move(apply_moves(s, ms), m),
    decreases ms.len(),
{
    if ms.len() == 0 {
        assert(ms.push(m).drop_first() =~= Seq::<SideMoveEvent>::empty());
        assert(apply_moves(apply_move(s, m), Seq::<SideMoveEvent>::empty()) == apply_move(s, m));
    } else {
        assert(ms.push(m).drop_first() =~= ms.drop_first().push(m));
        lemma_apply_moves_push(apply_move(s, ms[0]), ms.drop_first(), m);
    }
}

/// Moves are applied in the order given: `m1`, then `m2`, then `m3`.
pub proof fn lemma_moves_in_order(
    s: Seq<Piece>,
    m1: SideMoveEvent,
    m2: SideMoveEvent,
    m3: SideMoveEvent,
)
    ensures
        apply_moves(s, seq![m1, m2, m3]) == apply_move(apply_move(apply_move(s, m1), m2), m3),
{
    let e = Seq::<SideMoveEvent>::empty();
    lemma_apply_moves_push(s, e, m1);
    lemma_apply_moves_push(s, e.push(m1), m2);
    lemma_apply_moves_push(s, e.push(m1).push(m2), m3);
    assert(e.push(m1).push(m2).push(m3) =~= seq![m1, m2, m3]);
    assert(apply_moves(s, e) == s);
}

proof fn lemma_moved_four(m: SideMoveEvent, p: Piece)
    requires
        p.is_lattice(),
        m.rotate == SideRotation::Clockwise90,
    ensures
        moved(m, moved(m, moved(m, moved(m, p)))) == p,
{
    let axis = m.side.0;
    let rot = m.rotate;
    let c1 = turn_coord(axis, rot, p.init_pos);
    let c2 = turn_coord(axis, rot, c1);
    lemma_turn_coord(axis, rot, p.init_pos);
    lemma_turn_coord(axis, rot, c1);
    lemma_turn_coord(axis, rot, c2);
    lemma_four_quarters(axis, p.init_pos);
    lemma_four_quarters(axis, p.orientation.right);
    lemma_four_quarters(axis, p.orientation.up);
    lemma_four_quarters(axis, p.orientation.front);
}

/// Four clockwise quarter turns of one slice give back every piece, position
/// and orientation, even though each turn selects its pieces anew.
pub proof fn lemma_four_quarter_turns(s: Seq<Piece>, axis: Axis, layer: i8)
    requires
        all_lattice(s),
    ensures
        ({
            let m = SideMoveEvent { side: (axis, layer), rotate: SideRotation::Clockwise90 };
            apply_move(apply_move(apply_move(apply_move(s, m), m), m), m) == s
        }),
{
    let m = SideMoveEvent { side: (axis, layer), rotate: SideRotation::Clockwise90 };
    let t = apply_move(apply_move(apply_move(apply_move(s, m), m), m), m);
    assert forall|i: int| 0 <= i < s.len() implies t[i] == s[i] by {
        lemma_moved_four(m, s[i]);
    }
    assert(t =~= s);
}

proof fn lemma_moved_inverse(m: SideMoveEvent, n: SideMoveEvent, p: Piece)
    requires
        p.is_lattice(),
        n.side == m.side,
        n.rotate == inverse_rotation(m.rotate),
    ensures
        moved(n, moved(m, p)) == p,
{
    let axis = m.side.0;
    lemma_turn_coord(axis, m.rotate, p.init_pos);
    lemma_turn_coord(axis, m.rotate, p.orientation.right);
    lemma_turn_coord(axis, m.rotate, p.orientation.up);
    lemma_turn_coord(axis, m.rotate, p.orientation.front);
}

/// A turn followed at once by the opposite turn of the same slice restores the
/// pieces exactly, positions and orientations.
pub proof fn lemma_turn_then_inverse(s: Seq<Piece>, axis: Axis, layer: i8, rot: SideRotation)
    requires
        all_lattice(s),
    ensures
        apply_move(
            apply_move(s, SideMoveEvent { side: (axis, layer), rotate: rot }),
            SideMoveEvent { side: (axis, layer), rotate: inverse_rotation(rot) },
        ) == s,
{
    let m = SideMoveEvent { side: (axis, layer), rotate: rot };
    let n = SideMoveEvent { side: (axis, layer), rotate: inverse_rotation(rot) };
    let t = apply_move(apply_move(s, m), n);
    assert forall|i: int| 0 <= i < s.len() implies t[i] == s[i] by {
        lemma_moved_inverse(m, n, s[i]);
    }
    assert(t =~= s);
}

} // verus!

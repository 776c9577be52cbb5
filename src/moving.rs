//! Moves, the move queue, slice selection and the drag gesture.
use vstd::prelude::*;

use crate::lattice::{
    is_layer, turn_coord, turn_orientation, Axis, Coord, Piece, SideRotation,
};

verus! {

/// One slice turn: the slice is given by an axis and a layer value on it.
#[derive(Clone, Copy, Debug)]
pub struct SideMoveEvent {
    pub side: (Axis, i8),
    pub rotate: SideRotation,
}

impl PartialEq for SideMoveEvent {
    fn eq(&self, o: &SideMoveEvent) -> (r: bool) {
        self.side.0 == o.side.0 && self.side.1 == o.side.1 && self.rotate == o.rotate
    }
}

impl vstd::std_specs::cmp::PartialEqSpecImpl for SideMoveEvent {
    open spec fn obeys_eq_spec() -> bool {
        true
    }

    open spec fn eq_spec(&self, o: &SideMoveEvent) -> bool {
        *self == *o
    }
}

impl SideMoveEvent {
    /// The layer names one of the lattice layers.
    pub open spec fn is_valid(self) -> bool {
        is_layer(self.side.1 as int)
    }

    /// `p` lies in the slice this move turns.
    pub open spec fn selects(self, p: Piece) -> bool {
        p.init_pos.component(self.side.0) == self.side.1
    }

    /// `p` carried around by this move's turn.
    pub fn turn(&self, p: &Piece) -> (r: Piece)
        requires
            p.is_lattice(),
        ensures
            r == turn_piece(*self, *p),
            r.is_lattice(),
    {
        Piece {
            init_pos: p.init_pos.turned(self.side.0, self.rotate),
            orientation: p.orientation.turned(self.side.0, self.rotate),
        }
    }
}

/// Why a move request was refused.
#[derive(Clone, Copy, Debug, PartialEq, Eq, Structural)]
pub enum MoveError {
    /// The layer value is not one of the lattice layers.
    InvalidLayer,
}

/// Pending moves, oldest first.
#[derive(Clone, Debug)]
pub struct SideMoveQueue(pub Vec<SideMoveEvent>);

impl SideMoveQueue {
    pub open spec fn all_valid(self) -> bool {
        forall|i: int| 0 <= i < self.0@.len() ==> (#[trigger] self.0@[i]).is_valid()
    }

    pub fn new() -> (r: SideMoveQueue)
        ensures
            r.0@ == Seq::<SideMoveEvent>::empty(),
    {
        SideMoveQueue(Vec::new())
    }

    /// Appends a move at the back after checking its layer.
    pub fn enqueue_move(&mut self, axis: Axis, layer: i8, rotate: SideRotation) -> (r: Result<
        (),
        MoveError,
    >)
        ensures
            is_layer(layer as int) ==> r is Ok && final(self).0@ == old(self).0@.push(
                SideMoveEvent { side: (axis, layer), rotate },
            ),
            !is_layer(layer as int) ==> r == Err::<(), MoveError>(MoveError::InvalidLayer)
                && final(self).0@ == old(self).0@,
    {
        if layer < -1 || layer > 1 {
            return Err(MoveError::InvalidLayer);
        }
        self.0.push(SideMoveEvent { side: (axis, layer), rotate });
        Ok(())
    }
}

/// The piece after it is carried around by `m`'s slice turn.
pub open spec fn turn_piece(m: SideMoveEvent, p: Piece) -> Piece {
    Piece {
        init_pos: turn_coord(m.side.0, m.rotate, p.init_pos),
        orientation: turn_orientation(m.side.0, m.rotate, p.orientation),
    }
}

/// The piece `p` after move `m`: turned if `m` selects it, else unchanged.
pub open spec fn moved(m: SideMoveEvent, p: Piece) -> Piece {
    if m.selects(p) {
        turn_piece(m, p)
    } else {
        p
    }
}

/// The pieces after the move `m` has completed: those in its slice, selected
/// from their current coordinates, are turned; the rest stay.
pub open spec fn apply_move(s: Seq<Piece>, m: SideMoveEvent) -> Seq<Piece> {
    Seq::new(s.len(), |i: int| moved(m, s[i]))
}

/// The pieces after every move of `ms` has completed, first to last.
pub open spec fn apply_moves(s: Seq<Piece>, ms: Seq<SideMoveEvent>) -> Seq<Piece>
    decreases ms.len(),
{
    if ms.len() == 0 {
        s
    } else {
        apply_moves(apply_move(s, ms[0]), ms.drop_first())
    }
}

/// Marks, for each piece, whether it lies in the slice `(axis, layer)`.
pub fn select_slice(pieces: &Vec<Piece>, axis: Axis, layer: i8) -> (r: Vec<bool>)
    ensures
        r@.len() == pieces@.len(),
        forall|i: int|
            0 <= i < pieces@.len() ==> r@[i] == ((#[trigger] pieces@[i]).init_pos.component(axis)
                == layer),
{
    let mut r: Vec<bool> = Vec::new();
    let mut i: usize = 0;
    while i < pieces.len()
        invariant
            i <= pieces@.len(),
            r@.len() == i,
            forall|j: int|
                0 <= j < i ==> r@[j] == ((#[trigger] pieces@[j]).init_pos.component(axis) == layer),
        decreases pieces@.len() - i,
    {
        r.push(pieces[i].init_pos.get(axis) == layer);
        i = i + 1;
    }
    r
}

/// The per-piece view of a move in progress: what a renderer animates.
#[derive(Clone, Copy, Debug, PartialEq, Eq, Structural)]
pub struct MovablePiece {
    pub axis: Axis,
    pub rotate: SideRotation,
    /// Angle still to turn, in millionths of a degree.
    pub left_angle: u32,
}

/// The turn a finished drag asks for, if its direction is not ambiguous:
/// a mostly horizontal drag turns the piece's layer about Y, a mostly vertical
/// one its layer about X; the sign of the dominant delta picks the direction.
pub open spec fn drag_move(pos: Coord, dx: int, dy: int) -> Option<SideMoveEvent> {
    let ax = if dx < 0 { -dx } else { dx };
    let ay = if dy < 0 { -dy } else { dy };
    if ax > ay {
        Some(
            SideMoveEvent {
                side: (Axis::Y, pos.y),
                rotate: if dx > 0 {
                    SideRotation::Counterclockwise90
                } else {
                    SideRotation::Clockwise90
                },
            },
        )
    } else if ay > ax {
        Some(
            SideMoveEvent {
                side: (Axis::X, pos.x),
                rotate: if dy > 0 {
                    SideRotation::Counterclockwise90
                } else {
                    SideRotation::Clockwise90
                },
            },
        )
    } else {
        None
    }
}

/// Turns the accumulated screen-space delta of a drag that started on a piece
/// at `pos` into a move (screen y grows downwards).
pub fn infer_drag_move(pos: Coord, dx: i32, dy: i32) -> (r: Option<SideMoveEvent>)
    ensures
        r == drag_move(pos, dx as int, dy as int),
{
    let wx: i64 = dx as i64;
    let wy: i64 = dy as i64;
    let ax: i64 = if wx < 0 { -wx } else { wx };
    let ay: i64 = if wy < 0 { -wy } else { wy };
    if ax > ay {
        let rotate = if dx > 0 {
            SideRotation::Counterclockwise90
        } else {
            SideRotation::Clockwise90
        };
        Some(SideMoveEvent { side: (Axis::Y, pos.y), rotate })
    } else if ay > ax {
        let rotate = if dy > 0 {
            SideRotation::Counterclockwise90
        } else {
            SideRotation::Clockwise90
        };
        Some(SideMoveEvent { side: (Axis::X, pos.x), rotate })
    } else {
        None
    }
}

/// The drag session: the piece grabbed at drag start and its coordinate then.
#[derive(Clone, Copy, Debug, PartialEq, Eq, Structural)]
pub struct MouseDraggingRecorder {
    pub start_pos: Option<Coord>,
    pub piece: Option<usize>,
}

impl MouseDraggingRecorder {
    /// A drag is on a piece only while both fields are set.
    pub open spec fn active(self) -> bool {
        self.start_pos is Some && self.piece is Some
    }

    pub fn new() -> (r: MouseDraggingRecorder)
        ensures
            r.start_pos is None,
            r.piece is None,
    {
        MouseDraggingRecorder { start_pos: None, piece: None }
    }

    pub fn clear(&mut self)
        ensures
            final(self).start_pos is None,
            final(self).piece is None,
    {
        self.start_pos = None;
        self.piece = None;
    }

    /// Records the piece under the pointer at drag start.
    pub fn start(&mut self, piece: usize, pos: Coord)
        ensures
            final(self).start_pos == Some(pos),
            final(self).piece == Some(piece),
    {
        self.start_pos = Some(pos);
        self.piece = Some(piece);
    }

    pub fn is_active(&self) -> (r: bool)
        ensures
            r == self.active(),
    {
        self.start_pos.is_some() && self.piece.is_some()
    }

    /// Pointer motion orbits the camera exactly when no piece is being dragged.
    pub fn routes_to_camera(&self) -> (r: bool)
        ensures
            r == !self.active(),
    {
        self.piece.is_none() || self.start_pos.is_none()
    }
}

/// The move that ending a drag enqueues: one only for a drag on a piece,
/// with a dominant direction, whose layer is a lattice layer.
pub open spec fn drag_result(rec: MouseDraggingRecorder, dx: int, dy: int) -> Option<
    SideMoveEvent,
> {
    match (rec.start_pos, rec.piece) {
        (Some(pos), Some(_)) => match drag_move(pos, dx, dy) {
            Some(m) => if m.is_valid() {
                Some(m)
            } else {
                None
            },
            None => None,
        },
        _ => None,
    }
}

} // verus!

//! The cube: its pieces, the queue of pending moves, and the rotation state
//! machine that animates one move at a time and commits it when done.
use vstd::prelude::*;

use rand::Rng;

use crate::lattice::{Axis, Coord, Orientation, Piece, SideRotation};
use crate::laws::{
    all_lattice, lattice_bijection, lemma_apply_moves_push, lemma_move_keeps_bijection,
    lemma_solved_bijection, solved_piece, solved_pieces,
};
use crate::moving::{
    apply_move, apply_moves, drag_result, infer_drag_move, moved, select_slice, MouseDraggingRecorder,
    MovablePiece, MoveError, SideMoveEvent, SideMoveQueue,
};

verus! {

/// Angles are counted in millionths of a degree: a quarter turn.
pub const QUARTER_TURN: u32 = 90_000_000;

/// A half turn, in millionths of a degree.
pub const HALF_TURN: u32 = 180_000_000;

/// Millionths of a degree per millisecond: a quarter turn takes 250 ms.
pub const DEFAULT_ROTATE_SPEED: u32 = 360_000;

/// How many random moves one scramble request enqueues.
pub const SCRAMBLE_MOVES: usize = 5;

#[derive(Clone, Copy, Debug, PartialEq, Eq, Structural)]
pub enum PlayMode {
    Practice,
    Timekeeping,
}

/// Configuration of the cube.
#[derive(Clone, Copy, Debug, PartialEq, Eq, Structural)]
pub struct CubeSettings {
    /// Number of layers along each axis.
    pub cube_order: u8,
    /// Turning speed, in millionths of a degree per millisecond.
    pub rotate_speed: u32,
    pub play_mode: PlayMode,
}

impl Default for CubeSettings {
    fn default() -> (r: CubeSettings)
        ensures
            r.cube_order == 3,
            r.rotate_speed == DEFAULT_ROTATE_SPEED,
            r.play_mode == PlayMode::Practice,
    {
        CubeSettings {
            cube_order: 3,
            rotate_speed: DEFAULT_ROTATE_SPEED,
            play_mode: PlayMode::Practice,
        }
    }
}

/// A request to rebuild the cube in its solved state.
#[derive(Clone, Copy, Debug, PartialEq, Eq, Structural)]
pub struct ResetEvent;

/// A request to enqueue a random scramble.
#[derive(Clone, Copy, Debug, PartialEq, Eq, Structural)]
pub struct ScrambleEvent;

/// The whole angle a move of amount `rot` turns its slice by.
pub open spec fn full_angle(rot: SideRotation) -> u32 {
    match rot {
        SideRotation::Clockwise180 => HALF_TURN,
        _ => QUARTER_TURN,
    }
}

pub fn rotation_angle(rot: SideRotation) -> (r: u32)
    ensures
        r == full_angle(rot),
{
    match rot {
        SideRotation::Clockwise180 => HALF_TURN,
        _ => QUARTER_TURN,
    }
}

/// The move in progress: the slice selected when it started, and the angle
/// still to turn.
#[derive(Clone, Debug)]
pub struct ActiveMove {
    pub event: SideMoveEvent,
    pub selected: Vec<bool>,
    pub left_angle: u32,
}

pub struct Cube {
    pub pieces: Vec<Piece>,
    pub queue: SideMoveQueue,
    pub active: Option<ActiveMove>,
    pub settings: CubeSettings,
}

/// The orientation every piece of a freshly built cube has.
fn unturned_orientation() -> (r: Orientation)
    ensures
        r == Orientation::identity(),
{
    Orientation {
        right: Coord { x: 1, y: 0, z: 0 },
        up: Coord { x: 0, y: 1, z: 0 },
        front: Coord { x: 0, y: 0, z: 1 },
    }
}

/// Builds the 27 pieces of the solved cube, one on each lattice coordinate,
/// x varying slowest and z fastest.
pub fn create_cube() -> (r: Vec<Piece>)
    ensures
        r@ == solved_pieces(),
        lattice_bijection(r@),
{
    let mut v: Vec<Piece> = Vec::new();
    let mut i: u8 = 0;
    while i < 27
        invariant
            i <= 27,
            v@.len() == i,
            forall|j: int| 0 <= j < i ==> v@[j] == solved_piece(j),
        decreases 27 - i,
    {
        let x: i8 = (i / 9) as i8 - 1;
        let y: i8 = ((i / 3) % 3) as i8 - 1;
        let z: i8 = (i % 3) as i8 - 1;
        v.push(Piece { init_pos: Coord { x, y, z }, orientation: unturned_orientation() });
        i = i + 1;
    }
    assert(v@ =~= solved_pieces());
    proof {
        lemma_solved_bijection();
    }
    v
}

/// Turns, in place, every piece that `selected` marks.
fn turn_selected(pieces: &mut Vec<Piece>, selected: &Vec<bool>, m: SideMoveEvent)
    requires
        selected@.len() == old(pieces)@.len(),
        forall|i: int|
            0 <= i < selected@.len() ==> selected@[i] == m.selects(#[trigger] old(pieces)@[i]),
        all_lattice(old(pieces)@),
    ensures
        final(pieces)@ == apply_move(old(pieces)@, m),
{
    let ghost s = pieces@;
    let mut i: usize = 0;
    while i < pieces.len()
        invariant
            pieces@.len() == s.len(),
            selected@.len() == s.len(),
            i <= s.len(),
            forall|j: int| 0 <= j < selected@.len() ==> selected@[j] == m.selects(#[trigger] s[j]),
            all_lattice(s),
            forall|j: int| 0 <= j < i ==> pieces@[j] == moved(m, s[j]),
            forall|j: int| i <= j < s.len() ==> pieces@[j] == s[j],
        decreases s.len() - i,
    {
        if selected[i] {
            assert(s[i as int].is_lattice());
            let p = m.turn(&pieces[i]);
            pieces.set(i, p);
        }
        i = i + 1;
    }
    assert(pieces@ =~= apply_move(s, m));
}

/// Relies on rand's `thread_rng().gen_range(0..n)`: a value drawn from `0..n`;
/// it panics on an empty range, hence `n > 0`.
#[verifier::external_body]
fn random_below(n: u8) -> (r: u8)
    requires
        n > 0,
    ensures
        r < n,
{
    rand::thread_rng().gen_range(0..n)
}

pub open spec fn axis_of(d: u8) -> Axis {
    if d == 0 {
        Axis::X
    } else if d == 1 {
        Axis::Y
    } else {
        Axis::Z
    }
}

pub open spec fn rotation_of(d: u8) -> SideRotation {
    if d == 0 {
        SideRotation::Clockwise90
    } else if d == 1 {
        SideRotation::Clockwise180
    } else {
        SideRotation::Counterclockwise90
    }
}

/// The scramble move picked by three draws from `0..3`: the axis, the layer
/// (draw minus one) and the amount.
pub fn scramble_move(axis_draw: u8, layer_draw: u8, rotate_draw: u8) -> (r: SideMoveEvent)
    requires
        axis_draw < 3,
        layer_draw < 3,
        rotate_draw < 3,
    ensures
        r.side.0 == axis_of(axis_draw),
        r.side.1 == layer_draw - 1,
        r.rotate == rotation_of(rotate_draw),
        r.is_valid(),
{
    let axis = if axis_draw == 0 {
        Axis::X
    } else if axis_draw == 1 {
        Axis::Y
    } else {
        Axis::Z
    };
    let rotate = if rotate_draw == 0 {
        SideRotation::Clockwise90
    } else if rotate_draw == 1 {
        SideRotation::Clockwise180
    } else {
        SideRotation::Counterclockwise90
    };
    SideMoveEvent { side: (axis, layer_draw as i8 - 1), rotate }
}

/// Appends `SCRAMBLE_MOVES` uniformly random valid moves to the queue.
pub fn push_scramble(queue: &mut SideMoveQueue)
    ensures
        final(queue).0@.len() == old(queue).0@.len() + SCRAMBLE_MOVES,
        final(queue).0@.subrange(0, old(queue).0@.len() as int) == old(queue).0@,
        forall|i: int|
            old(queue).0@.len() <= i < final(queue).0@.len() ==> final(queue).0@[i].is_valid(),
{
    let ghost q0 = queue.0@;
    let mut k: usize = 0;
    while k < SCRAMBLE_MOVES
        invariant
            k <= SCRAMBLE_MOVES,
            queue.0@.len() == q0.len() + k,
            queue.0@.subrange(0, q0.len() as int) == q0,
            forall|i: int| q0.len() <= i < queue.0@.len() ==> (#[trigger] queue.0@[i]).is_valid(),
        decreases SCRAMBLE_MOVES - k,
    {
        let layer = random_below(3);
        let axis = random_below(3);
        let rotate = random_below(3);
        let m = scramble_move(axis, layer, rotate);
        let ghost before = queue.0@;
        queue.0.push(m);
        assert(queue.0@.subrange(0, q0.len() as int) =~= before.subrange(0, q0.len() as int));
        k = k + 1;
    }
}

/// Handles every pending scramble request once, then forgets them.
pub fn scramble_cube(queue: &mut SideMoveQueue, events: &mut Vec<ScrambleEvent>)
    ensures
        final(queue).0@.len() == old(queue).0@.len() + SCRAMBLE_MOVES * old(events)@.len(),
        final(queue).0@.subrange(0, old(queue).0@.len() as int) == old(queue).0@,
        forall|i: int|
            old(queue).0@.len() <= i < final(queue).0@.len() ==> final(queue).0@[i].is_valid(),
        final(events)@.len() == 0,
{
    let ghost q0 = queue.0@;
    let n = events.len();
    let mut k: usize = 0;
    while k < n
        invariant
            k <= n,
            n == old(events)@.len(),
            queue.0@.len() == q0.len() + SCRAMBLE_MOVES * k,
            queue.0@.subrange(0, q0.len() as int) == q0,
            forall|i: int| q0.len() <= i < queue.0@.len() ==> (#[trigger] queue.0@[i]).is_valid(),
        decreases n - k,
    {
        let ghost before = queue.0@;
        push_scramble(queue);
        assert(queue.0@.subrange(0, q0.len() as int) =~= before.subrange(0, q0.len() as int));
        assert forall|i: int| q0.len() <= i < queue.0@.len() implies (#[trigger] queue.0@[i]).is_valid() by {
            if i < before.len() {
                assert(queue.0@[i] == before[i]);
            }
        }
        k = k + 1;
    }
    events.clear();
}

/// Builds the cube at start-up: solved, nothing queued, nothing turning.
pub fn setup_cube(settings: CubeSettings) -> (r: Cube)
    ensures
        r.wf(),
        r.pieces@ == solved_pieces(),
        r.queue.0@.len() == 0,
        r.active is None,
        r.settings == settings,
{
    Cube::new(settings)
}

/// Handles pending reset requests: any number of them rebuild the cube once.
pub fn reset_cube(cube: &mut Cube, events: &mut Vec<ResetEvent>)
    requires
        old(cube).wf(),
    ensures
        final(cube).wf(),
        old(events)@.len() > 0 ==> final(cube).pieces@ == solved_pieces() && final(cube).active is None,
        old(events)@.len() == 0 ==> final(cube).pieces@ == old(cube).pieces@ && final(cube).active == old(cube).active,
        final(cube).queue == old(cube).queue,
        final(cube).settings == old(cube).settings,
        final(events)@.len() == 0,
{
    if events.len() > 0 {
        cube.reset();
    }
    events.clear();
}

impl Cube {
    /// The pieces form a bijection onto the lattice, every queued move is
    /// valid, and a move in progress has a proper angle and the selection of
    /// exactly the pieces in its slice.
    pub open spec fn wf(&self) -> bool {
        &&& lattice_bijection(self.pieces@)
        &&& self.queue.all_valid()
        &&& match self.active {
            Some(a) => {
                &&& a.event.is_valid()
                &&& 0 < a.left_angle <= full_angle(a.event.rotate)
                &&& a.selected@.len() == self.pieces@.len()
                &&& forall|i: int|
                    0 <= i < a.selected@.len() ==> a.selected@[i] == a.event.selects(
                        #[trigger] self.pieces@[i],
                    )
            },
            None => true,
        }
    }

    /// Moves not yet committed, in the order they will be: the one in
    /// progress first, then the queue front to back.
    pub open spec fn pending(&self) -> Seq<SideMoveEvent> {
        match self.active {
            Some(a) => seq![a.event] + self.queue.0@,
            None => self.queue.0@,
        }
    }

    /// The pieces once every pending move has completed.
    pub open spec fn settled(&self) -> Seq<Piece> {
        apply_moves(self.pieces@, self.pending())
    }

    /// What a tick works on: the move in progress with its angle left, else
    /// the front of the queue with its whole angle.
    pub open spec fn current(&self) -> Option<(SideMoveEvent, int)> {
        match self.active {
            Some(a) => Some((a.event, a.left_angle as int)),
            None => if self.queue.0@.len() > 0 {
                Some((self.queue.0@[0], full_angle(self.queue.0@[0].rotate) as int))
            } else {
                None
            },
        }
    }

    /// The queue once a tick has started its front move, if it had to.
    pub open spec fn waiting(&self) -> Seq<SideMoveEvent> {
        if self.active is None && self.queue.0@.len() > 0 {
            self.queue.0@.drop_first()
        } else {
            self.queue.0@
        }
    }

    /// The angle a tick of `elapsed_ms` milliseconds can turn.
    pub open spec fn step(&self, elapsed_ms: u32) -> int {
        self.settings.rotate_speed as int * elapsed_ms as int
    }

    /// `next` is this cube after a tick that may turn `step`: the current move
    /// completes, and is committed, when `step` reaches its angle left;
    /// otherwise the pieces stay and the angle left shrinks by `step`.
    pub open spec fn ticks_to(&self, next: &Cube, step: int) -> bool {
        match self.current() {
            None => next.pieces@ == self.pieces@ && next.active is None,
            Some((e, left)) => if step >= left {
                next.pieces@ == apply_move(self.pieces@, e) && next.active is None
            } else {
                &&& next.pieces@ == self.pieces@
                &&& match next.active {
                    Some(a) => a.event == e && a.left_angle == left - step,
                    None => false,
                }
            },
        }
    }

    /// A solved cube with nothing queued.
    pub fn new(settings: CubeSettings) -> (r: Cube)
        ensures
            r.wf(),
            r.pieces@ == solved_pieces(),
            r.queue.0@.len() == 0,
            r.active is None,
            r.settings == settings,
    {
        Cube { pieces: create_cube(), queue: SideMoveQueue::new(), active: None, settings }
    }

    /// Discards the pieces and any move in progress, and rebuilds the solved
    /// cube; the queue is kept.
    pub fn reset(&mut self)
        requires
            old(self).wf(),
        ensures
            final(self).wf(),
            final(self).pieces@ == solved_pieces(),
            final(self).active is None,
            final(self).queue == old(self).queue,
            final(self).settings == old(self).settings,
    {
        self.pieces = create_cube();
        self.active = None;
    }

    /// Enqueues a move after checking its layer; a valid one is the last to
    /// be applied of all pending moves.
    pub fn enqueue_move(&mut self, axis: Axis, layer: i8, rotate: SideRotation) -> (r: Result<
        (),
        MoveError,
    >)
        requires
            old(self).wf(),
        ensures
            final(self).wf(),
            final(self).pieces == old(self).pieces,
            final(self).active == old(self).active,
            final(self).settings == old(self).settings,
            r is Ok <==> -1 <= layer <= 1,
            r is Ok ==> final(self).queue.0@ == old(self).queue.0@.push(
                SideMoveEvent { side: (axis, layer), rotate },
            ) && final(self).settled() == apply_move(
                old(self).settled(),
                SideMoveEvent { side: (axis, layer), rotate },
            ),
            r is Err ==> r == Err::<(), MoveError>(MoveError::InvalidLayer) && final(self).queue.0@
                == old(self).queue.0@,
    {
        let ghost p0 = self.pending();
        let r = self.queue.enqueue_move(axis, layer, rotate);
        proof {
            let m = SideMoveEvent { side: (axis, layer), rotate };
            if r is Ok {
                assert(self.pending() =~= p0.push(m));
                lemma_apply_moves_push(self.pieces@, p0, m);
            }
        }
        r
    }

    /// Enqueues `SCRAMBLE_MOVES` random valid moves.
    pub fn scramble(&mut self)
        requires
            old(self).wf(),
        ensures
            final(self).wf(),
            final(self).pieces == old(self).pieces,
            final(self).active == old(self).active,
            final(self).settings == old(self).settings,
            final(self).queue.0@.len() == old(self).queue.0@.len() + SCRAMBLE_MOVES,
            final(self).queue.0@.subrange(0, old(self).queue.0@.len() as int) == old(
                self,
            ).queue.0@,
    {
        let ghost q0 = self.queue.0@;
        push_scramble(&mut self.queue);
        assert forall|i: int| 0 <= i < self.queue.0@.len() implies (#[trigger] self.queue.0@[i]).is_valid() by {
            if i < q0.len() {
                assert(self.queue.0@[i] == self.queue.0@.subrange(0, q0.len() as int)[i]);
            }
        }
    }

    /// Advances the rotation state machine by `elapsed_ms` milliseconds. When
    /// idle it first starts the front move of the queue, selecting its slice
    /// from the current coordinates; then the move in progress turns by
    /// `rotate_speed * elapsed_ms`, never past its end, and when it reaches
    /// its end the turn is committed to the pieces' exact coordinates.
    pub fn tick(&mut self, elapsed_ms: u32)
        requires
            old(self).wf(),
        ensures
            final(self).wf(),
            final(self).settings == old(self).settings,
            final(self).queue.0@ == old(self).waiting(),
            old(self).ticks_to(final(self), old(self).step(elapsed_ms)),
            final(self).settled() == old(self).settled(),
    {
        let ghost p0 = self.pending();
        if self.active.is_none() && self.queue.0.len() > 0 {
            let e = self.queue.0.remove(0);
            let selected = select_slice(&self.pieces, e.side.0, e.side.1);
            let angle = rotation_angle(e.rotate);
            self.active = Some(ActiveMove { event: e, selected, left_angle: angle });
            assert(self.pending() =~= p0);
        }
        let ghost mid = self.pending();
        let ghost pieces0 = self.pieces@;
        let cur = self.active.take();
        match cur {
            None => {},
            Some(a) => {
                let speed: u64 = self.settings.rotate_speed as u64;
                let ms: u64 = elapsed_ms as u64;
                proof {
                    assert(speed * ms <= 0xffff_ffffu64 * 0xffff_ffffu64) by (nonlinear_arith)
                        requires
                            speed <= 0xffff_ffffu64,
                            ms <= 0xffff_ffffu64,
                    ;
                }
                let step: u64 = speed * ms;
                if step >= a.left_angle as u64 {
                    turn_selected(&mut self.pieces, &a.selected, a.event);
                    proof {
                        lemma_move_keeps_bijection(pieces0, a.event);
                        assert(mid.drop_first() =~= self.queue.0@);
                    }
                } else {
                    let left: u32 = a.left_angle - step as u32;
                    self.active = Some(
                        ActiveMove { event: a.event, selected: a.selected, left_angle: left },
                    );
                }
            },
        }
    }

    /// Ends a drag: a drag on a piece with a clear dominant direction enqueues
    /// the move it asks for; the recorder is cleared whatever the outcome.
    pub fn end_drag(&mut self, recorder: &mut MouseDraggingRecorder, dx: i32, dy: i32) -> (r:
        Option<SideMoveEvent>)
        requires
            old(self).wf(),
        ensures
            final(self).wf(),
            r == drag_result(*old(recorder), dx as int, dy as int),
            final(recorder).start_pos is None,
            final(recorder).piece is None,
            final(self).pieces == old(self).pieces,
            final(self).active == old(self).active,
            final(self).settings == old(self).settings,
            r is Some ==> final(self).queue.0@ == old(self).queue.0@.push(r->0),
            r is None ==> final(self).queue.0@ == old(self).queue.0@,
    {
        let mut r: Option<SideMoveEvent> = None;
        if recorder.is_active() {
            match recorder.start_pos {
                Some(pos) => match infer_drag_move(pos, dx, dy) {
                    Some(m) => {
                        if self.enqueue_move(m.side.0, m.side.1, m.rotate).is_ok() {
                            r = Some(m);
                        }
                    },
                    None => {},
                },
                None => {},
            }
        }
        recorder.clear();
        r
    }

    /// The rotation a renderer shows on piece `i`: the move in progress if
    /// its slice holds the piece.
    pub fn moving_piece(&self, i: usize) -> (r: Option<MovablePiece>)
        requires
            self.wf(),
            i < self.pieces@.len(),
        ensures
            r == match self.active {
                Some(a) => if a.event.selects(self.pieces@[i as int]) {
                    Some(
                        MovablePiece {
                            axis: a.event.side.0,
                            rotate: a.event.rotate,
                            left_angle: a.left_angle,
                        },
                    )
                } else {
                    None
                },
                None => None,
            },
    {
        match &self.active {
            Some(a) => if a.selected[i] {
                Some(
                    MovablePiece {
                        axis: a.event.side.0,
                        rotate: a.event.rotate,
                        left_angle: a.left_angle,
                    },
                )
            } else {
                None
            },
            None => None,
        }
    }

    /// No move is in progress.
    pub fn is_idle(&self) -> (r: bool)
        ensures
            r == (self.active is None),
    {
        self.active.is_none()
    }
}

} // verus!

use rubiks_cube::cube::{
    create_cube, reset_cube, rotation_angle, scramble_cube, scramble_move, setup_cube, Cube,
    CubeSettings, PlayMode, ResetEvent, ScrambleEvent, DEFAULT_ROTATE_SPEED, HALF_TURN,
    QUARTER_TURN, SCRAMBLE_MOVES,
};
use rubiks_cube::lattice::{Axis, Coord, Orientation, Piece, SideRotation};
use rubiks_cube::moving::{
    infer_drag_move, select_slice, MouseDraggingRecorder, MovablePiece, MoveError, SideMoveEvent,
    SideMoveQueue,
};

fn c(x: i8, y: i8, z: i8) -> Coord {
    Coord { x, y, z }
}

fn positions(cube: &Cube) -> Vec<Coord> {
    cube.pieces.iter().map(|p| p.init_pos).collect()
}

fn assert_bijection(pieces: &[Piece]) {
    assert_eq!(pieces.len(), 27);
    for x in -1i8..=1 {
        for y in -1i8..=1 {
            for z in -1i8..=1 {
                let n = pieces.iter().filter(|p| p.init_pos == c(x, y, z)).count();
                assert_eq!(n, 1, "coordinate ({}, {}, {})", x, y, z);
            }
        }
    }
}

fn run_until_idle(cube: &mut Cube) {
    let mut guard = 0;
    while !(cube.is_idle() && cube.queue.0.is_empty()) {
        cube.tick(16);
        guard += 1;
        assert!(guard < 100_000);
    }
}

fn new_cube() -> Cube {
    Cube::new(CubeSettings::default())
}

#[test]
fn solved_cube_is_cartesian_product() {
    let pieces = create_cube();
    assert_bijection(&pieces);
    assert_eq!(pieces[0].init_pos, c(-1, -1, -1));
    assert_eq!(pieces[1].init_pos, c(-1, -1, 0));
    assert_eq!(pieces[26].init_pos, c(1, 1, 1));
    for p in &pieces {
        assert_eq!(
            p.orientation,
            Orientation { right: c(1, 0, 0), up: c(0, 1, 0), front: c(0, 0, 1) }
        );
    }
}

#[test]
fn default_settings() {
    let s = CubeSettings::default();
    assert_eq!(s.cube_order, 3);
    assert_eq!(s.rotate_speed, DEFAULT_ROTATE_SPEED);
    assert_eq!(s.play_mode, PlayMode::Practice);
    let cube = setup_cube(s);
    assert_bijection(&cube.pieces);
    assert!(cube.is_idle());
    assert!(cube.queue.0.is_empty());
}

#[test]
fn face_queries() {
    let p = Piece { init_pos: c(1, -1, 0), orientation: create_cube()[0].orientation };
    assert!(p.has_right_face());
    assert!(p.has_down_face());
    assert!(!p.has_up_face());
    assert!(!p.has_left_face());
    assert!(!p.has_front_face());
    assert!(!p.has_back_face());
    let q = Piece { init_pos: c(-1, 1, -1), orientation: p.orientation };
    assert!(q.has_left_face() && q.has_up_face() && q.has_back_face());
    assert!(!q.has_front_face());
}

#[test]
fn full_angles() {
    assert_eq!(rotation_angle(SideRotation::Clockwise90), QUARTER_TURN);
    assert_eq!(rotation_angle(SideRotation::Counterclockwise90), QUARTER_TURN);
    assert_eq!(rotation_angle(SideRotation::Clockwise180), HALF_TURN);
}

#[test]
fn invalid_layer_is_rejected() {
    let mut cube = new_cube();
    assert_eq!(cube.enqueue_move(Axis::X, 2, SideRotation::Clockwise90), Err(MoveError::InvalidLayer));
    assert_eq!(cube.enqueue_move(Axis::Y, -2, SideRotation::Clockwise90), Err(MoveError::InvalidLayer));
    assert!(cube.queue.0.is_empty());
    assert_eq!(cube.enqueue_move(Axis::Z, -1, SideRotation::Clockwise180), Ok(()));
    assert_eq!(cube.queue.0.len(), 1);
    let mut q = SideMoveQueue::new();
    assert_eq!(q.enqueue_move(Axis::Z, 5, SideRotation::Clockwise90), Err(MoveError::InvalidLayer));
    assert!(q.0.is_empty());
}

#[test]
fn quarter_turn_moves_corner() {
    let mut cube = new_cube();
    cube.enqueue_move(Axis::Y, 1, SideRotation::Clockwise90).unwrap();
    let before = positions(&cube);
    cube.tick(0);
    assert!(!cube.is_idle());
    assert!(cube.queue.0.is_empty());
    assert_eq!(positions(&cube), before);
    // piece 26 sits at (1, 1, 1): in the top layer
    assert_eq!(
        cube.moving_piece(26),
        Some(MovablePiece { axis: Axis::Y, rotate: SideRotation::Clockwise90, left_angle: QUARTER_TURN })
    );
    // piece 0 sits at (-1, -1, -1): not in it
    assert_eq!(cube.moving_piece(0), None);
    cube.tick(100);
    assert_eq!(cube.moving_piece(26).unwrap().left_angle, QUARTER_TURN - 100 * DEFAULT_ROTATE_SPEED);
    assert_eq!(positions(&cube), before);
    cube.tick(150);
    assert!(cube.is_idle());
    // clockwise about +Y: (x, y, z) -> (-z, y, x)
    assert_eq!(cube.pieces[26].init_pos, c(-1, 1, 1));
    assert_eq!(cube.pieces[26].orientation.front, c(-1, 0, 0));
    assert_eq!(cube.pieces[26].orientation.right, c(0, 0, 1));
    assert_eq!(cube.pieces[0].init_pos, c(-1, -1, -1));
    assert_bijection(&cube.pieces);
}

#[test]
fn half_turn_takes_twice_as_long() {
    let mut cube = new_cube();
    cube.enqueue_move(Axis::Z, 0, SideRotation::Clockwise180).unwrap();
    cube.tick(0);
    cube.tick(250);
    assert!(!cube.is_idle());
    cube.tick(250);
    assert!(cube.is_idle());
    // piece at (1, 0, 0) goes to (-1, 0, 0)
    let i = create_cube().iter().position(|p| p.init_pos == c(1, 0, 0)).unwrap();
    assert_eq!(cube.pieces[i].init_pos, c(-1, 0, 0));
}

#[test]
fn four_clockwise_quarters_restore() {
    for axis in [Axis::X, Axis::Y, Axis::Z] {
        for layer in -1i8..=1 {
            let mut cube = new_cube();
            cube.enqueue_move(Axis::Y, 1, SideRotation::Counterclockwise90).unwrap();
            run_until_idle(&mut cube);
            let start = cube.pieces.clone();
            for _ in 0..4 {
                cube.enqueue_move(axis, layer, SideRotation::Clockwise90).unwrap();
            }
            run_until_idle(&mut cube);
            assert_eq!(cube.pieces, start);
        }
    }
}

#[test]
fn turn_then_inverse_restores() {
    let mut cube = new_cube();
    cube.enqueue_move(Axis::X, -1, SideRotation::Clockwise180).unwrap();
    run_until_idle(&mut cube);
    let start = cube.pieces.clone();
    cube.enqueue_move(Axis::Z, 1, SideRotation::Clockwise90).unwrap();
    cube.enqueue_move(Axis::Z, 1, SideRotation::Counterclockwise90).unwrap();
    run_until_idle(&mut cube);
    assert_eq!(cube.pieces, start);
}

#[test]
fn queued_moves_apply_in_order() {
    let moves = [
        (Axis::X, 1i8, SideRotation::Clockwise90),
        (Axis::Y, 1i8, SideRotation::Clockwise90),
        (Axis::Z, 0i8, SideRotation::Counterclockwise90),
    ];
    // one at a time
    let mut one = new_cube();
    for (a, l, r) in moves {
        one.enqueue_move(a, l, r).unwrap();
        run_until_idle(&mut one);
    }
    // all queued at once
    let mut all = new_cube();
    for (a, l, r) in moves {
        all.enqueue_move(a, l, r).unwrap();
    }
    let solved = positions(&all);
    all.tick(0);
    all.tick(100);
    // M1 is still turning: nothing has moved and M2, M3 wait
    assert!(!all.is_idle());
    assert_eq!(all.queue.0.len(), 2);
    assert_eq!(positions(&all), solved);
    all.tick(150);
    assert!(all.is_idle());
    let after_first = positions(&all);
    assert_ne!(after_first, solved);
    all.tick(0);
    all.tick(100);
    assert_eq!(positions(&all), after_first);
    assert_eq!(all.queue.0.len(), 1);
    run_until_idle(&mut all);
    assert_eq!(all.pieces, one.pieces);
    // another order gives another cube
    let mut other = new_cube();
    for (a, l, r) in moves.iter().rev() {
        other.enqueue_move(*a, *l, *r).unwrap();
    }
    run_until_idle(&mut other);
    assert_ne!(other.pieces, one.pieces);
}

#[test]
fn scramble_enqueues_five_valid_moves() {
    let mut cube = new_cube();
    cube.scramble();
    assert_eq!(cube.queue.0.len(), SCRAMBLE_MOVES);
    assert_eq!(SCRAMBLE_MOVES, 5);
    for m in &cube.queue.0 {
        assert!((-1..=1).contains(&m.side.1));
    }
    run_until_idle(&mut cube);
    assert_bijection(&cube.pieces);
}

#[test]
fn scramble_events_are_read_once() {
    let mut q = SideMoveQueue::new();
    let mut events = vec![ScrambleEvent, ScrambleEvent];
    scramble_cube(&mut q, &mut events);
    assert!(events.is_empty());
    assert_eq!(q.0.len(), 10);
    for m in &q.0 {
        assert!((-1..=1).contains(&m.side.1));
    }
    scramble_cube(&mut q, &mut events);
    assert_eq!(q.0.len(), 10);
}

#[test]
fn scramble_move_from_draws() {
    assert_eq!(
        scramble_move(0, 0, 0),
        SideMoveEvent { side: (Axis::X, -1), rotate: SideRotation::Clockwise90 }
    );
    assert_eq!(
        scramble_move(1, 1, 1),
        SideMoveEvent { side: (Axis::Y, 0), rotate: SideRotation::Clockwise180 }
    );
    assert_eq!(
        scramble_move(2, 2, 2),
        SideMoveEvent { side: (Axis::Z, 1), rotate: SideRotation::Counterclockwise90 }
    );
}

#[test]
fn reset_rebuilds_solved_cube() {
    let mut cube = new_cube();
    cube.scramble();
    run_until_idle(&mut cube);
    cube.enqueue_move(Axis::X, 0, SideRotation::Clockwise90).unwrap();
    cube.tick(0);
    assert!(!cube.is_idle());
    cube.reset();
    assert!(cube.is_idle());
    assert_eq!(cube.pieces, create_cube());
    assert_bijection(&cube.pieces);
}

#[test]
fn reset_events_are_read_once() {
    let mut cube = new_cube();
    cube.enqueue_move(Axis::X, 1, SideRotation::Clockwise90).unwrap();
    run_until_idle(&mut cube);
    let turned = cube.pieces.clone();
    let mut none: Vec<ResetEvent> = Vec::new();
    reset_cube(&mut cube, &mut none);
    assert_eq!(cube.pieces, turned);
    let mut events = vec![ResetEvent, ResetEvent];
    reset_cube(&mut cube, &mut events);
    assert!(events.is_empty());
    assert_eq!(cube.pieces, create_cube());
}

#[test]
fn nearly_finished_turn_snaps_exactly() {
    let mut cube = new_cube();
    cube.enqueue_move(Axis::X, 1, SideRotation::Clockwise90).unwrap();
    cube.tick(0);
    // 0.0001 rad is about 5730 millionths of a degree
    cube.active.as_mut().unwrap().left_angle = 5730;
    cube.tick(1);
    assert!(cube.is_idle());
    // clockwise about +X: (x, y, z) -> (x, z, -y); (1, 1, 1) -> (1, 1, -1)
    assert_eq!(cube.pieces[26].init_pos, c(1, 1, -1));
    for p in &cube.pieces {
        for v in [p.init_pos.x, p.init_pos.y, p.init_pos.z] {
            assert!((-1..=1).contains(&v));
        }
    }
    assert_bijection(&cube.pieces);
}

#[test]
fn slice_selection() {
    let pieces = create_cube();
    let sel = select_slice(&pieces, Axis::Z, 1);
    assert_eq!(sel.iter().filter(|b| **b).count(), 9);
    for (p, s) in pieces.iter().zip(sel.iter()) {
        assert_eq!(*s, p.init_pos.z == 1);
    }
    assert!(select_slice(&pieces, Axis::X, 3).iter().all(|b| !*b));
}

#[test]
fn drag_inference() {
    let pos = c(1, -1, 0);
    assert_eq!(
        infer_drag_move(pos, 10, 3),
        Some(SideMoveEvent { side: (Axis::Y, -1), rotate: SideRotation::Counterclockwise90 })
    );
    assert_eq!(
        infer_drag_move(pos, -10, 3),
        Some(SideMoveEvent { side: (Axis::Y, -1), rotate: SideRotation::Clockwise90 })
    );
    assert_eq!(
        infer_drag_move(pos, 2, 7),
        Some(SideMoveEvent { side: (Axis::X, 1), rotate: SideRotation::Counterclockwise90 })
    );
    assert_eq!(
        infer_drag_move(pos, 2, -7),
        Some(SideMoveEvent { side: (Axis::X, 1), rotate: SideRotation::Clockwise90 })
    );
    assert_eq!(infer_drag_move(pos, 5, -5), None);
    assert_eq!(infer_drag_move(pos, 0, 0), None);
    assert_eq!(infer_drag_move(pos, i32::MIN, i32::MAX), Some(SideMoveEvent { side: (Axis::Y, -1), rotate: SideRotation::Clockwise90 }));
}

#[test]
fn drag_end_enqueues_and_clears() {
    let mut cube = new_cube();
    let mut rec = MouseDraggingRecorder::new();
    assert!(rec.routes_to_camera());
    rec.start(26, c(1, 1, 1));
    assert!(rec.is_active());
    assert!(!rec.routes_to_camera());
    let r = cube.end_drag(&mut rec, 40, 5);
    let m = SideMoveEvent { side: (Axis::Y, 1), rotate: SideRotation::Counterclockwise90 };
    assert_eq!(r, Some(m));
    assert_eq!(cube.queue.0, vec![m]);
    assert_eq!(rec, MouseDraggingRecorder { start_pos: None, piece: None });
    // ambiguous: nothing enqueued, recorder still cleared
    rec.start(0, c(-1, -1, -1));
    assert_eq!(cube.end_drag(&mut rec, 3, -3), None);
    assert_eq!(cube.queue.0.len(), 1);
    assert!(!rec.is_active());
    // no piece recorded: nothing enqueued
    assert_eq!(cube.end_drag(&mut rec, 30, 0), None);
    // a start coordinate off the lattice is refused
    rec.start(0, c(0, 4, 0));
    assert_eq!(cube.end_drag(&mut rec, 30, 0), None);
    assert_eq!(cube.queue.0.len(), 1);
}

#[test]
fn recorder_clear() {
    let mut rec = MouseDraggingRecorder { start_pos: Some(c(0, 0, 1)), piece: None };
    assert!(!rec.is_active());
    assert!(rec.routes_to_camera());
    rec.clear();
    assert_eq!(rec.start_pos, None);
    assert_eq!(rec.piece, None);
}

//! Lattice model: integer piece coordinates, orientations, and quarter turns.
use vstd::prelude::*;

verus! {

/// An axis of the cube; rotations of a slice happen around one of these.
#[derive(Clone, Copy, Debug, PartialEq, Eq, Structural)]
pub enum Axis {
    X,
    Y,
    Z,
}

/// How far a slice turns: seen from the positive end of the axis.
#[derive(Clone, Copy, Debug, PartialEq, Eq, Structural)]
pub enum SideRotation {
    Clockwise90,
    Clockwise180,
    Counterclockwise90,
}

/// A point or direction on the integer lattice centred on the middle of the cube.
#[derive(Clone, Copy, Debug, PartialEq, Eq, Structural)]
pub struct Coord {
    pub x: i8,
    pub y: i8,
    pub z: i8,
}

/// The layer values of an order-3 cube: -1, 0 and 1.
pub open spec fn is_layer(v: int) -> bool {
    -1 <= v <= 1
}

/// Where a piece's local axes point: the images of +x, +y and +z.
#[derive(Clone, Copy, Debug, PartialEq, Eq, Structural)]
pub struct Orientation {
    pub right: Coord,
    pub up: Coord,
    pub front: Coord,
}

/// One cubie: its current lattice coordinate and orientation.
#[derive(Clone, Copy, Debug, PartialEq, Eq, Structural)]
pub struct Piece {
    pub init_pos: Coord,
    pub orientation: Orientation,
}

impl Coord {
    pub open spec fn component(self, axis: Axis) -> i8 {
        match axis {
            Axis::X => self.x,
            Axis::Y => self.y,
            Axis::Z => self.z,
        }
    }

    /// Every component is one of the layer values.
    pub open spec fn is_lattice(self) -> bool {
        is_layer(self.x as int) && is_layer(self.y as int) && is_layer(self.z as int)
    }

    pub fn get(&self, axis: Axis) -> (r: i8)
        ensures
            r == self.component(axis),
    {
        match axis {
            Axis::X => self.x,
            Axis::Y => self.y,
            Axis::Z => self.z,
        }
    }

    /// This coordinate turned by `rot` about `axis` through the cube's centre.
    pub fn turned(&self, axis: Axis, rot: SideRotation) -> (r: Coord)
        requires
            self.is_lattice(),
        ensures
            r == turn_coord(axis, rot, *self),
            r.is_lattice(),
    {
        proof {
            reveal(turn_coord);
        }
        match rot {
            SideRotation::Clockwise90 => self.quarter_cw(axis),
            SideRotation::Clockwise180 => self.quarter_cw(axis).quarter_cw(axis),
            SideRotation::Counterclockwise90 => self.quarter_ccw(axis),
        }
    }

    fn quarter_cw(&self, axis: Axis) -> (r: Coord)
        requires
            self.is_lattice(),
        ensures
            r == quarter_cw(axis, *self),
            r.is_lattice(),
    {
        match axis {
            Axis::X => Coord { x: self.x, y: self.z, z: -self.y },
            Axis::Y => Coord { x: -self.z, y: self.y, z: self.x },
            Axis::Z => Coord { x: self.y, y: -self.x, z: self.z },
        }
    }

    fn quarter_ccw(&self, axis: Axis) -> (r: Coord)
        requires
            self.is_lattice(),
        ensures
            r == quarter_ccw(axis, *self),
            r.is_lattice(),
    {
        match axis {
            Axis::X => Coord { x: self.x, y: -self.z, z: self.y },
            Axis::Y => Coord { x: self.z, y: self.y, z: -self.x },
            Axis::Z => Coord { x: -self.y, y: self.x, z: self.z },
        }
    }
}

pub open spec fn neg(v: i8) -> i8 {
    (-v) as i8
}

/// A clockwise quarter turn about `axis`, looking from its positive end towards the centre.
pub open spec fn quarter_cw(axis: Axis, c: Coord) -> Coord {
    match axis {
        Axis::X => Coord { x: c.x, y: c.z, z: neg(c.y) },
        Axis::Y => Coord { x: neg(c.z), y: c.y, z: c.x },
        Axis::Z => Coord { x: c.y, y: neg(c.x), z: c.z },
    }
}

/// A counterclockwise quarter turn about `axis`.
pub open spec fn quarter_ccw(axis: Axis, c: Coord) -> Coord {
    match axis {
        Axis::X => Coord { x: c.x, y: neg(c.z), z: c.y },
        Axis::Y => Coord { x: c.z, y: c.y, z: neg(c.x) },
        Axis::Z => Coord { x: neg(c.y), y: c.x, z: c.z },
    }
}

#[verifier::opaque]
pub open spec fn turn_coord(axis: Axis, rot: SideRotation, c: Coord) -> Coord {
    match rot {
        SideRotation::Clockwise90 => quarter_cw(axis, c),
        SideRotation::Clockwise180 => quarter_cw(axis, quarter_cw(axis, c)),
        SideRotation::Counterclockwise90 => quarter_ccw(axis, c),
    }
}

/// The amount that undoes `rot`.
pub open spec fn inverse_rotation(rot: SideRotation) -> SideRotation {
    match rot {
        SideRotation::Clockwise90 => SideRotation::Counterclockwise90,
        SideRotation::Clockwise180 => SideRotation::Clockwise180,
        SideRotation::Counterclockwise90 => SideRotation::Clockwise90,
    }
}

/// A turn keeps lattice points on the lattice, keeps the component along its
/// axis, and is undone by the inverse amount.
pub proof fn lemma_turn_coord(axis: Axis, rot: SideRotation, c: Coord)
    requires
        c.is_lattice(),
    ensures
        turn_coord(axis, rot, c).is_lattice(),
        turn_coord(axis, rot, c).component(axis) == c.component(axis),
        turn_coord(axis, inverse_rotation(rot), turn_coord(axis, rot, c)) == c,
        turn_coord(axis, rot, turn_coord(axis, inverse_rotation(rot), c)) == c,
{
    reveal(turn_coord);
}

/// Four clockwise quarter turns about one axis are no turn at all.
pub proof fn lemma_four_quarters(axis: Axis, c: Coord)
    requires
        c.is_lattice(),
    ensures
        ({
            let q = SideRotation::Clockwise90;
            turn_coord(axis, q, turn_coord(axis, q, turn_coord(axis, q, turn_coord(axis, q, c))))
                == c
        }),
{
    reveal(turn_coord);
}

/// A turn is one to one on lattice points.
pub proof fn lemma_turn_coord_injective(axis: Axis, rot: SideRotation, a: Coord, b: Coord)
    requires
        a.is_lattice(),
        b.is_lattice(),
        turn_coord(axis, rot, a) == turn_coord(axis, rot, b),
    ensures
        a == b,
{
    lemma_turn_coord(axis, rot, a);
    lemma_turn_coord(axis, rot, b);
}

impl Orientation {
    pub open spec fn is_lattice(self) -> bool {
        self.right.is_lattice() && self.up.is_lattice() && self.front.is_lattice()
    }

    pub open spec fn identity() -> Orientation {
        Orientation {
            right: Coord { x: 1, y: 0, z: 0 },
            up: Coord { x: 0, y: 1, z: 0 },
            front: Coord { x: 0, y: 0, z: 1 },
        }
    }

    pub fn turned(&self, axis: Axis, rot: SideRotation) -> (r: Orientation)
        requires
            self.is_lattice(),
        ensures
            r == turn_orientation(axis, rot, *self),
            r.is_lattice(),
    {
        Orientation {
            right: self.right.turned(axis, rot),
            up: self.up.turned(axis, rot),
            front: self.front.turned(axis, rot),
        }
    }
}

pub open spec fn turn_orientation(axis: Axis, rot: SideRotation, o: Orientation) -> Orientation {
    Orientation {
        right: turn_coord(axis, rot, o.right),
        up: turn_coord(axis, rot, o.up),
        front: turn_coord(axis, rot, o.front),
    }
}

impl Piece {
    /// Position and orientation both lie on the lattice.
    pub open spec fn is_lattice(self) -> bool {
        self.init_pos.is_lattice() && self.orientation.is_lattice()
    }

    pub fn has_up_face(&self) -> (r: bool)
        ensures
            r == (self.init_pos.y == 1),
    {
        self.init_pos.y == 1
    }

    pub fn has_down_face(&self) -> (r: bool)
        ensures
            r == (self.init_pos.y == -1),
    {
        self.init_pos.y == -1
    }

    pub fn has_left_face(&self) -> (r: bool)
        ensures
            r == (self.init_pos.x == -1),
    {
        self.init_pos.x == -1
    }

    pub fn has_right_face(&self) -> (r: bool)
        ensures
            r == (self.init_pos.x == 1),
    {
        self.init_pos.x == 1
    }

    pub fn has_front_face(&self) -> (r: bool)
        ensures
            r == (self.init_pos.z == 1),
    {
        self.init_pos.z == 1
    }

    pub fn has_back_face(&self) -> (r: bool)
        ensures
            r == (self.init_pos.z == -1),
    {
        self.init_pos.z == -1
    }
}

} // verus!

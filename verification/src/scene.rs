//! What stands where when the scene opens.
//!
//! Lengths and coordinates are whole numbers of half units: `2` is one unit
//! of world space, `5` is two and a half. Colour channels are whole tenths:
//! `10` is full, `9` is nine tenths. Every number of the scene is a multiple
//! of these steps, so the host reaches the engine's values by one exact
//! division.
//!
//! A [`Prop`] is a thing with a mesh, a material, a rigid body and a box
//! collider. The world is a red ground plane, nine cubes stacked in the air
//! above a spot ten units down the negative z axis, and a clear hitbox for
//! the player. The y axis points up.

use vstd::prelude::*;

verus! {

/// Half units in one unit of world space.
pub const HALF_UNITS: i32 = 2;

/// Tenths in a full colour channel.
pub const FULL: u8 = 10;

/// The number of cubes in the stack.
pub const CUBES: u8 = 9;

/// A point of world space, or the extent of a box along the three axes, in
/// half units.
#[derive(Clone, Copy, Debug, PartialEq, Eq, Structural)]
pub struct Point {
    pub x: i32,
    pub y: i32,
    pub z: i32,
}

/// A colour, each channel in tenths.
#[derive(Clone, Copy, Debug, PartialEq, Eq, Structural)]
pub struct Rgba {
    pub red: u8,
    pub green: u8,
    pub blue: u8,
    pub alpha: u8,
}

/// The mesh of a prop. Lengths are full side lengths.
#[derive(Clone, Copy, Debug, PartialEq, Eq, Structural)]
pub enum Shape {
    /// A flat square in the xz plane.
    Plane { size: i32 },
    /// A cube.
    Cube { size: i32 },
    /// A box with a side length for each axis.
    Cuboid { lengths: Point },
}

/// How the physics engine treats a body.
#[derive(Clone, Copy, Debug, PartialEq, Eq, Structural)]
pub enum BodyKind {
    /// Never moves.
    Static,
    /// Moved by forces and contacts.
    Dynamic,
    /// Moved only by being told where to be.
    Kinematic,
}

/// One thing in the world.
#[derive(Clone, Copy, Debug, PartialEq, Eq, Structural)]
pub struct Prop {
    pub shape: Shape,
    pub color: Rgba,
    /// Whether the material is drawn in the transparent pass.
    pub transparent: bool,
    /// Where the mesh is placed when it is spawned.
    pub placed_at: Point,
    pub body: BodyKind,
    /// Where the body starts.
    pub body_at: Point,
    /// Half the side lengths of the box collider.
    pub half_extents: Point,
}

impl Rgba {
    /// No channel is more than full.
    pub open spec fn wf(self) -> bool {
        self.red <= FULL && self.green <= FULL && self.blue <= FULL && self.alpha <= FULL
    }
}

impl Shape {
    /// The side lengths of the smallest box around the mesh.
    pub open spec fn lengths(self) -> Point {
        match self {
            Shape::Plane { size } => Point { x: size, y: 0, z: size },
            Shape::Cube { size } => Point { x: size, y: size, z: size },
            Shape::Cuboid { lengths } => lengths,
        }
    }
}

impl Prop {
    /// The colour is a colour, no length is negative, and the collider is
    /// the box around the mesh.
    pub open spec fn wf(self) -> bool {
        let lengths = self.shape.lengths();
        &&& self.color.wf()
        &&& self.half_extents.x >= 0 && self.half_extents.y >= 0 && self.half_extents.z >= 0
        &&& lengths.x == 2 * self.half_extents.x
        &&& lengths.y == 2 * self.half_extents.y
        &&& lengths.z == 2 * self.half_extents.z
    }

    /// The height of the collider's lower face.
    pub open spec fn bottom(self) -> int {
        self.body_at.y - self.half_extents.y
    }

    /// The height of the collider's upper face.
    pub open spec fn top(self) -> int {
        self.body_at.y + self.half_extents.y
    }
}

/// The ground: a red square of 128 units, one unit above the origin, that
/// never moves.
pub open spec fn ground() -> Prop {
    Prop {
        shape: Shape::Plane { size: 256 },
        color: Rgba { red: 10, green: 0, blue: 0, alpha: 10 },
        transparent: false,
        placed_at: Point { x: 0, y: 2, z: 0 },
        body: BodyKind::Static,
        body_at: Point { x: 0, y: 2, z: 0 },
        half_extents: Point { x: 128, y: 0, z: 128 },
    }
}

/// The height of cube `i`: the lowest, cube 1, is at four and a half units,
/// and each next one two units higher.
pub open spec fn cube_height(i: int) -> int {
    5 + 4 * i
}

/// Cube `i` of the stack, counted from 1 at the bottom: a unit cube that
/// falls, green where `i` is even and blue where it is odd.
pub open spec fn cube(i: int) -> Prop {
    let at = Point { x: 0, y: cube_height(i) as i32, z: -20i32 };
    Prop {
        shape: Shape::Cube { size: 2 },
        color: if i % 2 == 0 {
            Rgba { red: 0, green: 10, blue: 0, alpha: 10 }
        } else {
            Rgba { red: 0, green: 0, blue: 10, alpha: 10 }
        },
        transparent: false,
        placed_at: at,
        body: BodyKind::Dynamic,
        body_at: at,
        half_extents: Point { x: 1, y: 1, z: 1 },
    }
}

/// The player's hitbox: a box one unit wide and two high that cannot be
/// seen. Its body starts six units up and is kinematic; its mesh is spawned
/// at the origin and follows the body from the first physics step on.
pub open spec fn hitbox() -> Prop {
    Prop {
        shape: Shape::Cuboid { lengths: Point { x: 2, y: 4, z: 2 } },
        color: Rgba { red: 10, green: 9, blue: 9, alpha: 0 },
        transparent: true,
        placed_at: Point { x: 0, y: 0, z: 0 },
        body: BodyKind::Kinematic,
        body_at: Point { x: 0, y: 12, z: 0 },
        half_extents: Point { x: 1, y: 2, z: 1 },
    }
}

/// The world in the order in which it is spawned: the ground, the cubes from
/// the bottom up, the hitbox.
pub open spec fn world() -> Seq<Prop> {
    seq![ground()] + Seq::new(CUBES as nat, |k: int| cube(k + 1)) + seq![hitbox()]
}

/// Where the light stands: four units along x and z, eight up.
pub open spec fn light() -> Point {
    Point { x: 8, y: 16, z: 8 }
}

/// Where the camera starts: two and a half units above the origin.
pub open spec fn camera() -> Point {
    Point { x: 0, y: 5, z: 0 }
}

/// The position of the light.
pub fn setup_lighting() -> (at: Point)
    ensures
        at == light(),
{
    Point { x: 4 * HALF_UNITS, y: 8 * HALF_UNITS, z: 4 * HALF_UNITS }
}

/// The position from which the camera first looks.
pub fn setup_cameras() -> (at: Point)
    ensures
        at == camera(),
{
    Point { x: 0, y: 5, z: 0 }
}

/// Cube `i` of the stack.
pub fn stacked_cube(i: u8) -> (prop: Prop)
    ensures
        prop == cube(i as int),
{
    let height: i32 = 5 + 4 * (i as i32);
    let at = Point { x: 0, y: height, z: -20 };
    Prop {
        shape: Shape::Cube { size: 2 },
        color: if i % 2 == 0 {
            Rgba { red: 0, green: FULL, blue: 0, alpha: FULL }
        } else {
            Rgba { red: 0, green: 0, blue: FULL, alpha: FULL }
        },
        transparent: false,
        placed_at: at,
        body: BodyKind::Dynamic,
        body_at: at,
        half_extents: Point { x: 1, y: 1, z: 1 },
    }
}

/// Everything that is spawned into the world, in order.
pub fn setup_world() -> (props: Vec<Prop>)
    ensures
        props@ == world(),
        forall|k: int| 0 <= k < props@.len() ==> (#[trigger] props@[k]).wf(),
{
    let mut props: Vec<Prop> = Vec::new();
    let plane_at = Point { x: 0, y: HALF_UNITS, z: 0 };
    props.push(
        Prop {
            shape: Shape::Plane { size: 128 * HALF_UNITS },
            color: Rgba { red: FULL, green: 0, blue: 0, alpha: FULL },
            transparent: false,
            placed_at: plane_at,
            body: BodyKind::Static,
            body_at: plane_at,
            half_extents: Point { x: 64 * HALF_UNITS, y: 0, z: 64 * HALF_UNITS },
        },
    );

    let mut i: u8 = 1;
    while i <= CUBES
        invariant
            1 <= i <= CUBES + 1,
            props@ == seq![ground()] + Seq::new((i - 1) as nat, |k: int| cube(k + 1)),
        decreases CUBES + 1 - i,
    {
        props.push(stacked_cube(i));
        i += 1;
    }

    props.push(
        Prop {
            shape: Shape::Cuboid { lengths: Point { x: 2, y: 4, z: 2 } },
            color: Rgba { red: FULL, green: 9, blue: 9, alpha: 0 },
            transparent: true,
            placed_at: Point { x: 0, y: 0, z: 0 },
            body: BodyKind::Kinematic,
            body_at: Point { x: 0, y: 6 * HALF_UNITS, z: 0 },
            half_extents: Point { x: 1, y: 2, z: 1 },
        },
    );
    proof {
        world_is_sound();
    }
    props
}

/// Every prop of the world is well formed.
pub proof fn world_is_sound()
    ensures
        world().len() == CUBES + 2,
        forall|k: int| 0 <= k < world().len() ==> (#[trigger] world()[k]).wf(),
{
}

/// The stack starts in the air and apart: the lowest cube is above the
/// ground, and between any two cubes there is room.
pub proof fn cubes_start_apart(i: int, j: int)
    requires
        1 <= i < j <= CUBES,
    ensures
        ground().top() < cube(i).bottom(),
        cube(i).top() < cube(j).bottom(),
{
}

} // verus!

use vstd::prelude::*;

use crate::engine::Variables;
use crate::rigid_body::RigidBodyType;

verus! {

/// A point or extent in the plane, in hundredths of a world unit.
#[derive(Debug, Clone, Copy, PartialEq, Eq, Structural)]
pub struct Centi2 {
    pub x: i32,
    pub y: i32,
}

/// The geometry of a body. A rectangle or platform is placed by its top-left
/// corner and spans `size` to the right and down; a circle by its centre.
#[derive(Debug, Clone, Copy, PartialEq, Eq, Structural)]
pub enum Shape {
    Rectangle { size: Centi2 },
    Circle { radius: i32 },
    SpringPlatform { size: Centi2 },
}

/// A body as a scene creates it: mass, position and geometry, in hundredths.
#[derive(Debug, Clone, Copy, PartialEq, Eq, Structural)]
pub struct BodySpec {
    pub mass: i32,
    pub pos: Centi2,
    pub shape: Shape,
}

pub open spec fn spec_kind(shape: Shape) -> RigidBodyType {
    match shape {
        Shape::Rectangle { .. } => RigidBodyType::Square,
        Shape::Circle { .. } => RigidBodyType::Circle,
        Shape::SpringPlatform { .. } => RigidBodyType::Spring,
    }
}

/// Positive mass and positive geometry.
pub open spec fn body_valid(b: BodySpec) -> bool {
    &&& b.mass > 0
    &&& match b.shape {
        Shape::Rectangle { size } => size.x > 0 && size.y > 0,
        Shape::Circle { radius } => radius > 0,
        Shape::SpringPlatform { size } => size.x > 0 && size.y > 0,
    }
}

/// The body's footprint lies within `[0, world.x] x [0, world.y]`.
pub open spec fn body_within(b: BodySpec, world: Centi2) -> bool {
    match b.shape {
        Shape::Circle { radius } => {
            &&& 0 <= b.pos.x - radius
            &&& b.pos.x + radius <= world.x
            &&& 0 <= b.pos.y - radius
            &&& b.pos.y + radius <= world.y
        },
        Shape::Rectangle { size } | Shape::SpringPlatform { size } => {
            &&& 0 <= b.pos.x
            &&& b.pos.x + size.x <= world.x
            &&& 0 <= b.pos.y - size.y
            &&& b.pos.y <= world.y
        },
    }
}

impl BodySpec {
    /// The kind of body that the shape makes.
    pub fn get_type(&self) -> (r: RigidBodyType)
        ensures
            r == spec_kind(self.shape),
    {
        match self.shape {
            Shape::Rectangle { .. } => RigidBodyType::Square,
            Shape::Circle { .. } => RigidBodyType::Circle,
            Shape::SpringPlatform { .. } => RigidBodyType::Spring,
        }
    }

    /// The radius, for a circle only.
    pub fn get_radius(&self) -> (r: Option<i32>)
        ensures
            r == (match self.shape {
                Shape::Circle { radius } => Some(radius),
                _ => None,
            }),
    {
        match self.shape {
            Shape::Circle { radius } => Some(radius),
            _ => None,
        }
    }

    /// The size, for a rectangle or a platform only.
    pub fn get_size(&self) -> (r: Option<Centi2>)
        ensures
            r == (match self.shape {
                Shape::Rectangle { size } => Some(size),
                Shape::SpringPlatform { size } => Some(size),
                Shape::Circle { .. } => None,
            }),
    {
        match self.shape {
            Shape::Rectangle { size } => Some(size),
            Shape::SpringPlatform { size } => Some(size),
            Shape::Circle { .. } => None,
        }
    }
}

/// The scenes that the sandbox offers, in the order in which they cycle.
#[derive(Debug, Clone, Copy, PartialEq, Eq, Structural)]
pub enum Scene {
    FallingRectangles,
    BouncingCircles,
    RectAndCircle,
    Spring,
}

pub open spec fn spec_world_size(s: Scene) -> Centi2 {
    match s {
        Scene::FallingRectangles => Centi2 { x: 10200, y: 6000 },
        Scene::BouncingCircles => Centi2 { x: 6800, y: 4000 },
        Scene::RectAndCircle => Centi2 { x: 10200, y: 6000 },
        Scene::Spring => Centi2 { x: 6800, y: 4000 },
    }
}

pub open spec fn spec_next_scene(s: Scene) -> Scene {
    match s {
        Scene::FallingRectangles => Scene::BouncingCircles,
        Scene::BouncingCircles => Scene::RectAndCircle,
        Scene::RectAndCircle => Scene::Spring,
        Scene::Spring => Scene::FallingRectangles,
    }
}

pub open spec fn spec_variables(s: Scene) -> Variables {
    match s {
        Scene::FallingRectangles => Variables { g: Some(0), c: Some(100) },
        Scene::BouncingCircles => Variables { g: Some(981), c: Some(0) },
        Scene::RectAndCircle => Variables { g: Some(981), c: Some(0) },
        Scene::Spring => Variables { g: None, c: None },
    }
}

pub open spec fn spec_c_range(s: Scene) -> (i32, i32) {
    match s {
        Scene::FallingRectangles => (-100i32, 3000i32),
        _ => (-1i32, 100i32),
    }
}

pub open spec fn spec_c_default(s: Scene) -> i32 {
    match s {
        Scene::FallingRectangles => 100,
        _ => 1,
    }
}

pub open spec fn circle(mass: i32, x: i32, y: i32, radius: i32) -> BodySpec {
    BodySpec { mass, pos: Centi2 { x, y }, shape: Shape::Circle { radius } }
}

pub open spec fn rectangle(mass: i32, x: i32, y: i32, w: i32, h: i32) -> BodySpec {
    BodySpec { mass, pos: Centi2 { x, y }, shape: Shape::Rectangle { size: Centi2 { x: w, y: h } } }
}

pub open spec fn platform(mass: i32, x: i32, y: i32, w: i32, h: i32) -> BodySpec {
    BodySpec {
        mass,
        pos: Centi2 { x, y },
        shape: Shape::SpringPlatform { size: Centi2 { x: w, y: h } },
    }
}

/// The four circles of masses 1, 4, 9 and 16 and radii 1 to 4 that two scenes
/// share, at 10%, 30%, 60% and 90% of the world's width, resting on a line at
/// 80% of its height.
pub open spec fn spec_four_circles(world: Centi2) -> Seq<BodySpec> {
    if world == spec_world_size(Scene::BouncingCircles) {
        seq![
            circle(100, 680, 3300, 100),
            circle(400, 2040, 3400, 200),
            circle(900, 4080, 3500, 300),
            circle(1600, 6120, 3600, 400),
        ]
    } else {
        seq![
            circle(100, 1020, 4900, 100),
            circle(400, 3060, 5000, 200),
            circle(900, 6120, 5100, 300),
            circle(1600, 9180, 5200, 400),
        ]
    }
}

pub open spec fn spec_rigid_bodies(s: Scene) -> Seq<BodySpec> {
    match s {
        Scene::FallingRectangles => seq![
            rectangle(1000, 4590, 3000, 200, 200),
            rectangle(10000, 5610, 3000, 200, 200),
        ],
        Scene::BouncingCircles => spec_four_circles(spec_world_size(s)),
        Scene::RectAndCircle => seq![rectangle(100, 4800, 3000, 600, 600)] + spec_four_circles(
            spec_world_size(s),
        ),
        Scene::Spring => seq![platform(100, 2400, 2000, 3000, 300)],
    }
}

impl Scene {
    /// The world extent, `[0, x] x [0, y]`.
    pub fn get_world_size(&self) -> (r: Centi2)
        ensures
            r == spec_world_size(*self),
            r.x > 0,
            r.y > 0,
    {
        match self {
            Scene::FallingRectangles => Centi2 { x: 10200, y: 6000 },
            Scene::BouncingCircles => Centi2 { x: 6800, y: 4000 },
            Scene::RectAndCircle => Centi2 { x: 10200, y: 6000 },
            Scene::Spring => Centi2 { x: 6800, y: 4000 },
        }
    }

    /// The scene that follows this one; the last wraps round to the first.
    pub fn get_next_scene(&self) -> (r: Scene)
        ensures
            r == spec_next_scene(*self),
    {
        match self {
            Scene::FallingRectangles => Scene::BouncingCircles,
            Scene::BouncingCircles => Scene::RectAndCircle,
            Scene::RectAndCircle => Scene::Spring,
            Scene::Spring => Scene::FallingRectangles,
        }
    }

    /// The scene's default gravity and drag.
    pub fn get_variables(&self) -> (r: Variables)
        ensures
            r == spec_variables(*self),
    {
        match self {
            Scene::FallingRectangles => Variables::new(Some(0), Some(100)),
            Scene::BouncingCircles => Variables::new(Some(981), Some(0)),
            Scene::RectAndCircle => Variables::new(Some(981), Some(0)),
            Scene::Spring => Variables::new(None, None),
        }
    }

    /// The range, inclusive at both ends, over which the drag coefficient may be tuned.
    pub fn get_c_range(&self) -> (r: (i32, i32))
        ensures
            r == spec_c_range(*self),
            r.0 < r.1,
    {
        match self {
            Scene::FallingRectangles => (-100, 3000),
            _ => (-1, 100),
        }
    }

    /// The drag coefficient that a reset restores.
    pub fn get_c_default(&self) -> (r: i32)
        ensures
            r == spec_c_default(*self),
    {
        match self {
            Scene::FallingRectangles => 100,
            _ => 1,
        }
    }

    /// The bodies that the scene starts with, in sweep order. Each is valid and
    /// lies within the scene's world.
    pub fn get_rigid_bodies(&self) -> (r: Vec<BodySpec>)
        ensures
            r@ == spec_rigid_bodies(*self),
            forall|k: int|
                0 <= k < r@.len() ==> body_valid(r@[k]) && body_within(
                    r@[k],
                    spec_world_size(*self),
                ),
    {
        proof {
            lemma_scene_bodies_valid(*self);
        }
        let w = self.get_world_size();
        match self {
            Scene::FallingRectangles => {
                let size = Centi2 { x: 200, y: 200 };
                let pos0 = Centi2 { x: w.x * 45 / 100, y: w.y / 2 };
                let pos1 = Centi2 { x: w.x * 55 / 100, y: w.y / 2 };
                vec![
                    BodySpec { mass: 1000, pos: pos0, shape: Shape::Rectangle { size } },
                    BodySpec { mass: 10000, pos: pos1, shape: Shape::Rectangle { size } },
                ]
            },
            Scene::BouncingCircles => four_circles(w),
            Scene::RectAndCircle => {
                let size = Centi2 { x: 600, y: 600 };
                let pos = Centi2 { x: w.x / 2 - size.x / 2, y: w.y / 2 };
                let mut r = vec![BodySpec { mass: 100, pos, shape: Shape::Rectangle { size } }];
                let mut circles = four_circles(w);
                r.append(&mut circles);
                r
            },
            Scene::Spring => {
                let pos = Centi2 { x: w.x / 2 - 1000, y: w.y / 2 };
                let size = Centi2 { x: 3000, y: 300 };
                vec![BodySpec { mass: 100, pos, shape: Shape::SpringPlatform { size } }]
            },
        }
    }
}

fn four_circles(world: Centi2) -> (r: Vec<BodySpec>)
    requires
        world == spec_world_size(Scene::BouncingCircles) || world == spec_world_size(
            Scene::RectAndCircle,
        ),
    ensures
        r@ == spec_four_circles(world),
{
    let base = world.y * 8 / 10;
    vec![
        BodySpec { mass: 100, pos: Centi2 { x: world.x / 10, y: base + 100 }, shape: Shape::Circle { radius: 100 } },
        BodySpec { mass: 400, pos: Centi2 { x: world.x * 3 / 10, y: base + 200 }, shape: Shape::Circle { radius: 200 } },
        BodySpec { mass: 900, pos: Centi2 { x: world.x * 6 / 10, y: base + 300 }, shape: Shape::Circle { radius: 300 } },
        BodySpec { mass: 1600, pos: Centi2 { x: world.x * 9 / 10, y: base + 400 }, shape: Shape::Circle { radius: 400 } },
    ]
}

/// Every body that a scene starts with has a positive mass and positive
/// geometry, and its footprint lies within the scene's world.
pub proof fn lemma_scene_bodies_valid(s: Scene)
    ensures
        forall|k: int|
            0 <= k < spec_rigid_bodies(s).len() ==> body_valid(spec_rigid_bodies(s)[k])
                && body_within(spec_rigid_bodies(s)[k], spec_world_size(s)),
{
    let bodies = spec_rigid_bodies(s);
    let w = spec_world_size(s);
    if s == Scene::RectAndCircle {
        let first = seq![rectangle(100, 4800, 3000, 600, 600)];
        let rest = spec_four_circles(w);
        assert forall|k: int| 0 <= k < bodies.len() implies body_valid(bodies[k]) && body_within(
            bodies[k],
            w,
        ) by {
            if k == 0 {
                assert(bodies[k] == first[0]);
            } else {
                assert(bodies[k] == rest[k - 1]);
            }
        }
    }
}

} // verus!

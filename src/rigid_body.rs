use vstd::prelude::*;

verus! {

/// The kind of a simulated body.
#[derive(Debug, Clone, Copy, PartialEq, Eq, Structural)]
pub enum RigidBodyType {
    Square,
    Circle,
    Spring,
}

/// The overlap test that applies to a pair of bodies.
#[derive(Debug, Clone, Copy, PartialEq, Eq, Structural)]
pub enum PairTest {
    /// Both bodies are circles: compare the centre distance with the sum of radii.
    CircleCircle,
    /// The first body is the rectangle, the second the circle.
    RectCircle,
    /// The first body is the circle, the second the rectangle.
    CircleRect,
}

/// Which overlap test a pair of kinds gets, if any.
pub open spec fn spec_pair_test(a: RigidBodyType, b: RigidBodyType) -> Option<PairTest> {
    match (a, b) {
        (RigidBodyType::Circle, RigidBodyType::Circle) => Some(PairTest::CircleCircle),
        (RigidBodyType::Square, RigidBodyType::Circle) => Some(PairTest::RectCircle),
        (RigidBodyType::Circle, RigidBodyType::Square) => Some(PairTest::CircleRect),
        _ => None,
    }
}

/// Chooses the overlap test for two kinds of body. Rectangle pairs and spring
/// platforms get none.
pub fn pair_test(a: RigidBodyType, b: RigidBodyType) -> (r: Option<PairTest>)
    ensures
        r == spec_pair_test(a, b),
{
    match (a, b) {
        (RigidBodyType::Circle, RigidBodyType::Circle) => Some(PairTest::CircleCircle),
        (RigidBodyType::Square, RigidBodyType::Circle) => Some(PairTest::RectCircle),
        (RigidBodyType::Circle, RigidBodyType::Square) => Some(PairTest::CircleRect),
        _ => None,
    }
}

/// Which force components a body's readout holds. An absent component does not
/// apply to the body, which is not the same as a component computed as zero.
#[derive(Debug, Clone, Copy, PartialEq, Eq, Structural)]
pub struct ForceSet {
    pub gravity: bool,
    pub drag: bool,
    pub spring: bool,
}

pub open spec fn spec_force_components(kind: RigidBodyType, has_gravity: bool, has_drag: bool) -> ForceSet {
    match kind {
        RigidBodyType::Spring => ForceSet { gravity: false, drag: false, spring: true },
        _ => ForceSet { gravity: has_gravity, drag: has_drag, spring: false },
    }
}

/// The force components that apply to a body of `kind` in a scene that
/// configures gravity (`has_gravity`) and drag (`has_drag`): rectangles and
/// circles feel the gravity and drag that the scene configures, a spring
/// platform feels only its spring.
pub fn force_components(kind: RigidBodyType, has_gravity: bool, has_drag: bool) -> (r: ForceSet)
    ensures
        r == spec_force_components(kind, has_gravity, has_drag),
{
    match kind {
        RigidBodyType::Spring => ForceSet { gravity: false, drag: false, spring: true },
        _ => ForceSet { gravity: has_gravity, drag: has_drag, spring: false },
    }
}

/// Whether a spring platform is held by the pointer after this tick. A grab
/// begins when the button is down with the pointer inside the platform, and
/// ends when the button is released. While held, the spring force is suppressed.
pub fn next_grabbed(grabbed: bool, button_down: bool, pointer_inside: bool, released: bool) -> (r:
    bool)
    ensures
        r == (!released && (grabbed || (button_down && pointer_inside))),
{
    let mut held = grabbed;
    if button_down && !held && pointer_inside {
        held = true;
    }
    if released {
        held = false;
    }
    held
}

} // verus!

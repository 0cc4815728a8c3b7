use physics_engine::collision::{collision_pairs, BodyTag, CollisionPair};
use physics_engine::engine::{plan_tick, Advance, RunMode, StepCommand, Variables};
use physics_engine::rigid_body::{force_components, next_grabbed, pair_test, ForceSet, PairTest, RigidBodyType};
use physics_engine::scenes::{BodySpec, Centi2, Scene, Shape};

use RigidBodyType::{Circle, Spring, Square};

fn tags(kinds: &[RigidBodyType], enabled: &[bool]) -> Vec<BodyTag> {
    kinds.iter().zip(enabled).map(|(&kind, &enabled)| BodyTag { kind, enabled }).collect()
}

#[test]
fn pair_test_by_kinds() {
    assert_eq!(pair_test(Circle, Circle), Some(PairTest::CircleCircle));
    assert_eq!(pair_test(Square, Circle), Some(PairTest::RectCircle));
    assert_eq!(pair_test(Circle, Square), Some(PairTest::CircleRect));
    assert_eq!(pair_test(Square, Square), None);
    assert_eq!(pair_test(Spring, Circle), None);
    assert_eq!(pair_test(Circle, Spring), None);
    assert_eq!(pair_test(Spring, Spring), None);
    assert_eq!(pair_test(Square, Spring), None);
}

#[test]
fn sweep_lists_all_pairs_in_order() {
    let kinds = vec![Circle, Circle, Circle];
    let enabled = vec![true, true, true];
    let r = collision_pairs(&tags(&kinds, &enabled));
    let got: Vec<(usize, usize)> = r.iter().map(|p| (p.first, p.second)).collect();
    assert_eq!(got, vec![(0, 1), (0, 2), (1, 2)]);
    assert!(r.iter().all(|p| p.test == PairTest::CircleCircle));
}

#[test]
fn sweep_skips_disabled_bodies() {
    let kinds = vec![Circle, Circle, Circle];
    let enabled = vec![true, false, true];
    let r = collision_pairs(&tags(&kinds, &enabled));
    assert_eq!(r, vec![CollisionPair { first: 0, second: 2, test: PairTest::CircleCircle }]);
}

#[test]
fn sweep_skips_rectangle_pairs_and_springs() {
    let kinds = vec![Square, Circle, Square, Spring];
    let enabled = vec![true, true, true, true];
    let r = collision_pairs(&tags(&kinds, &enabled));
    assert_eq!(
        r,
        vec![
            CollisionPair { first: 0, second: 1, test: PairTest::RectCircle },
            CollisionPair { first: 1, second: 2, test: PairTest::CircleRect },
        ]
    );
}

#[test]
fn sweep_of_empty_and_single_sets() {
    assert!(collision_pairs(&vec![]).is_empty());
    assert!(collision_pairs(&tags(&[Circle], &[true])).is_empty());
}

#[test]
fn scene_cycle() {
    assert_eq!(Scene::FallingRectangles.get_next_scene(), Scene::BouncingCircles);
    assert_eq!(Scene::BouncingCircles.get_next_scene(), Scene::RectAndCircle);
    assert_eq!(Scene::RectAndCircle.get_next_scene(), Scene::Spring);
    assert_eq!(Scene::Spring.get_next_scene(), Scene::FallingRectangles);
}

#[test]
fn scene_world_sizes() {
    assert_eq!(Scene::FallingRectangles.get_world_size(), Centi2 { x: 10200, y: 6000 });
    assert_eq!(Scene::BouncingCircles.get_world_size(), Centi2 { x: 6800, y: 4000 });
    assert_eq!(Scene::RectAndCircle.get_world_size(), Centi2 { x: 10200, y: 6000 });
    assert_eq!(Scene::Spring.get_world_size(), Centi2 { x: 6800, y: 4000 });
}

#[test]
fn scene_variables_and_drag_settings() {
    assert_eq!(Scene::FallingRectangles.get_variables(), Variables::new(Some(0), Some(100)));
    assert_eq!(Scene::BouncingCircles.get_variables(), Variables::new(Some(981), Some(0)));
    assert_eq!(Scene::RectAndCircle.get_variables(), Variables::new(Some(981), Some(0)));
    assert_eq!(Scene::Spring.get_variables(), Variables::new(None, None));
    assert_eq!(Scene::FallingRectangles.get_c_range(), (-100, 3000));
    assert_eq!(Scene::BouncingCircles.get_c_range(), (-1, 100));
    assert_eq!(Scene::FallingRectangles.get_c_default(), 100);
    assert_eq!(Scene::Spring.get_c_default(), 1);
}

#[test]
fn falling_rectangles_bodies() {
    let b = Scene::FallingRectangles.get_rigid_bodies();
    let size = Centi2 { x: 200, y: 200 };
    assert_eq!(
        b,
        vec![
            BodySpec { mass: 1000, pos: Centi2 { x: 4590, y: 3000 }, shape: Shape::Rectangle { size } },
            BodySpec { mass: 10000, pos: Centi2 { x: 5610, y: 3000 }, shape: Shape::Rectangle { size } },
        ]
    );
}

#[test]
fn rect_and_circle_bodies() {
    let b = Scene::RectAndCircle.get_rigid_bodies();
    assert_eq!(b.len(), 5);
    assert_eq!(b[0].get_type(), Square);
    assert_eq!(b[0].pos, Centi2 { x: 4800, y: 3000 });
    assert_eq!(b[0].get_size(), Some(Centi2 { x: 600, y: 600 }));
    assert_eq!(b[0].get_radius(), None);
    let radii: Vec<Option<i32>> = b[1..].iter().map(|c| c.get_radius()).collect();
    assert_eq!(radii, vec![Some(100), Some(200), Some(300), Some(400)]);
    let masses: Vec<i32> = b[1..].iter().map(|c| c.mass).collect();
    assert_eq!(masses, vec![100, 400, 900, 1600]);
    assert_eq!(b[4].pos, Centi2 { x: 9180, y: 5200 });
    assert_eq!(b[1].get_size(), None);
}

#[test]
fn bouncing_circles_and_spring_bodies() {
    let b = Scene::BouncingCircles.get_rigid_bodies();
    assert_eq!(b.len(), 4);
    assert_eq!(b[0].pos, Centi2 { x: 680, y: 3300 });
    assert_eq!(b[3].pos, Centi2 { x: 6120, y: 3600 });
    let s = Scene::Spring.get_rigid_bodies();
    assert_eq!(s.len(), 1);
    assert_eq!(s[0].get_type(), Spring);
    assert_eq!(s[0].pos, Centi2 { x: 2400, y: 2000 });
    assert_eq!(s[0].get_size(), Some(Centi2 { x: 3000, y: 300 }));
}

#[test]
fn scene_bodies_start_inside_their_world() {
    for scene in [Scene::FallingRectangles, Scene::BouncingCircles, Scene::RectAndCircle, Scene::Spring] {
        let w = scene.get_world_size();
        for b in scene.get_rigid_bodies() {
            assert!(b.mass > 0);
            match b.shape {
                Shape::Circle { radius } => {
                    assert!(radius > 0);
                    assert!(b.pos.x - radius >= 0 && b.pos.x + radius <= w.x);
                    assert!(b.pos.y - radius >= 0 && b.pos.y + radius <= w.y);
                }
                Shape::Rectangle { size } | Shape::SpringPlatform { size } => {
                    assert!(size.x > 0 && size.y > 0);
                    assert!(b.pos.x >= 0 && b.pos.x + size.x <= w.x);
                    assert!(b.pos.y - size.y >= 0 && b.pos.y <= w.y);
                }
            }
        }
    }
}

#[test]
fn continuous_mode_ticks() {
    let run = RunMode { pause: false, time_step_mode: false };
    let paused = RunMode { pause: true, time_step_mode: false };
    let p = plan_tick(run, StepCommand::Nothing, false);
    assert_eq!(p.advance, Advance::Frame);
    assert!(p.clock_follows_frames);
    assert_eq!(plan_tick(run, StepCommand::Forward, true).advance, Advance::Frame);
    let q = plan_tick(paused, StepCommand::Nothing, true);
    assert_eq!(q.advance, Advance::Hold);
    assert!(q.clock_follows_frames);
}

#[test]
fn time_step_mode_ticks() {
    let step = RunMode { pause: false, time_step_mode: true };
    let step_paused = RunMode { pause: true, time_step_mode: true };
    assert_eq!(plan_tick(step, StepCommand::Nothing, true).advance, Advance::Hold);
    assert_eq!(plan_tick(step, StepCommand::Forward, false).advance, Advance::StepForward);
    assert_eq!(plan_tick(step_paused, StepCommand::Forward, false).advance, Advance::StepForward);
    assert_eq!(plan_tick(step, StepCommand::Backward, true).advance, Advance::StepBackward);
    assert_eq!(plan_tick(step, StepCommand::Backward, false).advance, Advance::Hold);
    assert!(!plan_tick(step, StepCommand::Forward, true).clock_follows_frames);
}

#[test]
fn force_components_by_kind() {
    assert_eq!(force_components(Circle, true, true), ForceSet { gravity: true, drag: true, spring: false });
    assert_eq!(force_components(Square, true, false), ForceSet { gravity: true, drag: false, spring: false });
    assert_eq!(force_components(Circle, false, true), ForceSet { gravity: false, drag: true, spring: false });
    assert_eq!(force_components(Square, false, false), ForceSet { gravity: false, drag: false, spring: false });
    assert_eq!(force_components(Spring, true, true), ForceSet { gravity: false, drag: false, spring: true });
}

#[test]
fn spring_grab_begins_inside_and_ends_on_release() {
    assert!(next_grabbed(false, true, true, false));
    assert!(!next_grabbed(false, true, false, false));
    assert!(!next_grabbed(false, false, true, false));
    assert!(next_grabbed(true, true, false, false));
    assert!(next_grabbed(true, false, false, false));
    assert!(!next_grabbed(true, false, true, true));
    assert!(!next_grabbed(false, true, true, true));
}

use pathtracer::hitable::{Crossing, Sphere};
use pathtracer::material::{Material, ScatterRay};
use pathtracer::math::{Ray, Vec3f};
use pathtracer::path::{Ending, Outcome, Path, MAX_DEPTH};
use pathtracer::sampling::{Trial, MAX_TRIALS};
use pathtracer::scalar::Scalar;
use pathtracer::scene::Scene;

fn scalar(x: f32) -> Scalar {
    Scalar::from_bits(x.to_bits())
}

fn vector(x: f32, y: f32, z: f32) -> Vec3f {
    Vec3f::new(scalar(x), scalar(y), scalar(z))
}

fn scatter(tag: f32) -> ScatterRay {
    ScatterRay {
        ray: Ray::new(vector(tag, 0.0, 0.0), vector(0.0, tag, 0.0)),
        attenuation: vector(0.5, 0.25, tag),
    }
}

fn crossing(discriminant: f32, near: f32, far: f32) -> Crossing {
    Crossing { discriminant: scalar(discriminant), near: scalar(near), far: scalar(far) }
}

fn ball() -> Sphere {
    Sphere {
        center: vector(0.0, 0.0, -1.0),
        radius: scalar(0.5),
        material: Material::Lambertian { albedo: vector(0.5, 0.5, 0.5) },
    }
}

#[test]
fn the_depth_limit_is_fifty() {
    assert_eq!(MAX_DEPTH, 50);
}

#[test]
fn a_path_starts_live_with_one_ray() {
    let path = Path::start(0);
    assert!(!path.is_over());
    assert_eq!(path.ending(), None);
    assert_eq!(path.depth(), 0);
    assert_eq!(path.rays(), 1);
    assert!(path.filters().is_empty());
}

#[test]
fn a_path_at_the_depth_limit_is_black_at_once() {
    for depth in [50, 51, 1000, i32::MAX] {
        let mut path = Path::start(depth);
        assert!(path.is_over());
        assert_eq!(path.ending(), Some(Ending::Exhausted));
        assert_eq!(path.rays(), 1);
        assert_eq!(path.advance(Outcome::Scattered(scatter(1.0))), None);
        assert_eq!(path.advance(Outcome::Missed), None);
        assert_eq!(path.ending(), Some(Ending::Exhausted));
        assert_eq!(path.depth(), depth);
        assert_eq!(path.rays(), 1);
        assert!(path.filters().is_empty());
    }
    assert!(!Path::start(49).is_over());
}

#[test]
fn a_miss_ends_the_path_in_the_sky() {
    let mut path = Path::start(0);
    assert_eq!(path.advance(Outcome::Missed), None);
    assert_eq!(path.ending(), Some(Ending::Sky));
    assert_eq!(path.rays(), 1);
    assert_eq!(path.depth(), 0);
    assert!(path.filters().is_empty());
}

#[test]
fn an_absorption_ends_the_path_black() {
    let mut path = Path::start(0);
    assert_eq!(path.advance(Outcome::Scattered(scatter(1.0))), Some(scatter(1.0).ray));
    assert_eq!(path.advance(Outcome::Absorbed), None);
    assert_eq!(path.ending(), Some(Ending::Absorbed));
    assert_eq!(path.rays(), 2);
    assert_eq!(path.depth(), 1);
}

#[test]
fn a_scattering_goes_one_level_deeper() {
    let mut path = Path::start(0);
    assert_eq!(path.advance(Outcome::Scattered(scatter(1.0))), Some(scatter(1.0).ray));
    assert_eq!(path.advance(Outcome::Scattered(scatter(2.0))), Some(scatter(2.0).ray));
    assert_eq!(path.advance(Outcome::Scattered(scatter(3.0))), Some(scatter(3.0).ray));
    assert!(!path.is_over());
    assert_eq!(path.depth(), 3);
    assert_eq!(path.rays(), 4);
    assert_eq!(
        path.filters(),
        &vec![scatter(1.0).attenuation, scatter(2.0).attenuation, scatter(3.0).attenuation]
    );
    assert_eq!(path.advance(Outcome::Missed), None);
    assert_eq!(path.ending(), Some(Ending::Sky));
    assert_eq!(path.filters().len(), 3);
    assert_eq!(path.rays(), 4);
}

#[test]
fn a_path_that_is_over_takes_nothing() {
    let mut path = Path::start(0);
    path.advance(Outcome::Scattered(scatter(1.0)));
    path.advance(Outcome::Missed);
    assert_eq!(path.advance(Outcome::Scattered(scatter(2.0))), None);
    assert_eq!(path.advance(Outcome::Absorbed), None);
    assert_eq!(path.ending(), Some(Ending::Sky));
    assert_eq!(path.depth(), 1);
    assert_eq!(path.rays(), 2);
    assert_eq!(path.filters(), &vec![scatter(1.0).attenuation]);
}

#[test]
fn a_path_from_depth_zero_traces_fifty_one_rays_at_most() {
    let mut path = Path::start(0);
    let mut casts = 0;
    for i in 0..200 {
        let next = path.advance(Outcome::Scattered(scatter(i as f32)));
        if next.is_some() {
            casts += 1;
        }
        assert_eq!(next.is_some(), i < 49);
        assert_eq!(path.is_over(), i >= 49);
    }
    assert_eq!(casts, 49);
    assert_eq!(path.ending(), Some(Ending::Exhausted));
    assert_eq!(path.depth(), 50);
    assert_eq!(path.rays(), 51);
    assert_eq!(path.filters().len(), 50);
    for i in 0..50 {
        assert_eq!(path.filters()[i], scatter(i as f32).attenuation);
    }
}

#[test]
fn a_path_traces_one_ray_more_than_it_bounces() {
    for bounces in 0..60u64 {
        let mut path = Path::start(0);
        for i in 0..bounces {
            path.advance(Outcome::Scattered(scatter(i as f32)));
        }
        path.advance(Outcome::Missed);
        assert_eq!(path.rays(), 1 + bounces.min(50));
        assert!(path.is_over());
        let expected = if bounces >= 50 { Ending::Exhausted } else { Ending::Sky };
        assert_eq!(path.ending(), Some(expected));
    }
}

#[test]
fn a_path_from_a_depth_has_the_room_that_is_left() {
    let mut path = Path::start(47);
    assert!(path.advance(Outcome::Scattered(scatter(1.0))).is_some());
    assert!(path.advance(Outcome::Scattered(scatter(2.0))).is_some());
    assert!(path.advance(Outcome::Scattered(scatter(3.0))).is_none());
    assert_eq!(path.ending(), Some(Ending::Exhausted));
    assert_eq!(path.rays(), 4);
    assert_eq!(path.depth(), 50);
    let mut deep = Path::start(-3);
    for _ in 0..52 {
        assert!(deep.advance(Outcome::Scattered(scatter(1.0))).is_some());
    }
    assert!(deep.advance(Outcome::Scattered(scatter(1.0))).is_none());
    assert_eq!(deep.rays(), 54);
}

#[test]
fn outcome_of_a_scatter() {
    assert_eq!(Outcome::of_scatter(None), Outcome::Absorbed);
    assert_eq!(Outcome::of_scatter(Some(scatter(1.0))), Outcome::Scattered(scatter(1.0)));
}

#[test]
fn ray_trace_in_an_empty_scene_ends_in_the_sky() {
    let scene = Scene::new();
    let mut path = Path::start(0);
    assert_eq!(scene.ray_trace(&mut path, &vec![]), None);
    assert_eq!(path.ending(), Some(Ending::Sky));
    assert_eq!(path.rays(), 1);
    assert!(path.filters().is_empty());
}

#[test]
fn ray_trace_reports_the_hit_and_waits() {
    let mut scene = Scene::new();
    scene.push(ball());
    let mut path = Path::start(0);
    let hit = scene.ray_trace(&mut path, &vec![crossing(0.25, 0.5, 1.5)]).unwrap();
    assert_eq!(hit.object, 0);
    assert_eq!(hit.sphere, ball());
    assert_eq!(hit.t, scalar(0.5));
    assert!(!path.is_over());
    assert_eq!(path.rays(), 1);
}

#[test]
fn ray_trace_hits_nothing_nearer_than_a_thousandth() {
    let mut scene = Scene::new();
    scene.push(ball());
    let mut path = Path::start(0);
    let hit = scene.ray_trace(&mut path, &vec![crossing(0.25, 0.000_9, 1.5)]).unwrap();
    assert_eq!(hit.t, scalar(1.5));
    let hit = scene.ray_trace(&mut path, &vec![crossing(0.25, 0.001, 0.001_000_1)]).unwrap();
    assert_eq!(hit.t, scalar(0.001_000_1));
    assert_eq!(scene.ray_trace(&mut path, &vec![crossing(0.25, -1.0, 0.001)]), None);
    assert_eq!(path.ending(), Some(Ending::Sky));
}

#[test]
fn ray_trace_leaves_a_finished_path_alone() {
    let mut scene = Scene::new();
    scene.push(ball());
    let mut path = Path::start(50);
    assert_eq!(scene.ray_trace(&mut path, &vec![crossing(0.25, 0.5, 1.5)]), None);
    assert_eq!(path.ending(), Some(Ending::Exhausted));
    let mut absorbed = Path::start(0);
    absorbed.advance(Outcome::Absorbed);
    assert_eq!(scene.ray_trace(&mut absorbed, &vec![crossing(0.25, 0.5, 1.5)]), None);
    assert_eq!(absorbed.ending(), Some(Ending::Absorbed));
}

#[test]
fn a_point_inside_is_accepted() {
    assert_eq!(Trial::judge(0, scalar(0.0)), Trial::Accept);
    assert_eq!(Trial::judge(0, scalar(0.999_999)), Trial::Accept);
    assert_eq!(Trial::judge(99, scalar(0.5)), Trial::Accept);
    assert_eq!(Trial::judge(u32::MAX, scalar(0.5)), Trial::Accept);
}

#[test]
fn a_point_outside_is_drawn_again_while_trials_are_left() {
    assert_eq!(MAX_TRIALS, 100);
    assert_eq!(Trial::judge(0, scalar(1.0)), Trial::Retry);
    assert_eq!(Trial::judge(0, scalar(2.5)), Trial::Retry);
    assert_eq!(Trial::judge(98, scalar(3.0)), Trial::Retry);
    assert_eq!(Trial::judge(99, scalar(3.0)), Trial::GiveUp);
    assert_eq!(Trial::judge(100, scalar(1.0)), Trial::GiveUp);
    assert_eq!(Trial::judge(u32::MAX, scalar(1.0)), Trial::GiveUp);
    assert_eq!(Trial::judge(0, scalar(f32::NAN)), Trial::Retry);
}

#[test]
fn a_rejection_loop_draws_a_hundred_candidates_at_most() {
    let mut drawn = 0;
    let mut trial = 0;
    loop {
        drawn += 1;
        match Trial::judge(trial, scalar(3.0)) {
            Trial::Retry => trial += 1,
            verdict => {
                assert_eq!(verdict, Trial::GiveUp);
                break;
            }
        }
    }
    assert_eq!(drawn, 100);
}

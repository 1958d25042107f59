use oxygine::graphics::WindowBuilder;
use oxygine::math::{deg, rad, Angle};
use oxygine::time::Time;
use oxygine::Engine;
use std::time::{Duration, Instant};

fn wait(span: Duration) {
    let start = Instant::now();
    while start.elapsed() < span {}
}

fn seconds(nanos: u128) -> f64 {
    ((nanos / 1_000_000_000) as f64) + (((nanos % 1_000_000_000) as f64) / 1_000_000_000.0)
}

#[test]
fn lib_construct() {
    #[allow(unused_variables)]
    let eng = Engine::new();
}

#[test]
fn update() {
    let mut eng = Engine::new();

    let a = seconds(eng.time().elapsed());
    eng.update();
    let b = seconds(eng.time().elapsed());

    assert!(a < b);
}

#[test]
fn time_construct() {
    #[allow(unused_variables)]
    let time = Time::new();
}

#[test]
fn elapsed() {
    let mut time = Time::new();

    let a = seconds(time.elapsed());

    wait(Duration::new(0, 5000));

    time.update();

    let b = seconds(time.elapsed());

    assert!(a < b);
}

#[test]
fn delta() {
    let mut time = Time::new();

    time.update();

    wait(Duration::new(0, 5000));

    time.update();

    assert!(seconds(time.delta()) >= 5000.0 / 1_000_000_000.0);
}

#[test]
fn a_new_clock_has_made_no_step() {
    let time = Time::new();
    assert_eq!(time.delta(), 0);
}

#[test]
fn advance_moves_the_clock_to_the_given_time() {
    let mut time = Time::new();
    time.advance(1_000);
    assert_eq!(time.elapsed(), 1_000);
    time.advance(4_500);
    assert_eq!(time.elapsed(), 4_500);
    assert_eq!(time.delta(), 3_500);
    time.advance(4_500);
    assert_eq!(time.delta(), 0);
}

#[test]
fn advance_to_an_earlier_time_makes_no_step() {
    let mut time = Time::new();
    time.advance(9_000);
    time.advance(2_000);
    assert_eq!(time.elapsed(), 2_000);
    assert_eq!(time.delta(), 0);
}

#[test]
fn update_keeps_the_clock_running_forward() {
    let mut time = Time::new();
    time.update();
    let first = time.elapsed();
    wait(Duration::new(0, 5000));
    time.update();
    assert_eq!(time.delta(), time.elapsed() - first);
    assert!(time.delta() >= 5000);
}

#[test]
fn window_defaults() {
    let b = WindowBuilder::new();
    assert_eq!(b.width(), 1024);
    assert_eq!(b.height(), 768);
    assert_eq!(b.title(), "Oxygine Game Engine Window");
    assert!(b.vsync());
    assert_eq!(b.depth(), 24);
    assert_eq!(b.stencil(), 8);
    assert!(b.srgb());
}

#[test]
fn window_settings_change_one_at_a_time() {
    let b = WindowBuilder::new().with_size(640, 480);
    assert_eq!((b.width(), b.height()), (640, 480));
    assert_eq!(b.title(), "Oxygine Game Engine Window");
    let b = b.with_title("Demo");
    assert_eq!(b.title(), "Demo");
    assert_eq!((b.width(), b.height()), (640, 480));
    let b = b.with_vsync(false);
    assert!(!b.vsync());
    assert!(b.srgb());
    let b = b.with_depth(16);
    assert_eq!((b.depth(), b.stencil()), (16, 8));
    let b = b.with_stencil(0);
    assert_eq!((b.depth(), b.stencil()), (16, 0));
    let b = b.with_srgb(false);
    assert!(!b.srgb());
    assert_eq!((b.width(), b.height()), (640, 480));
    assert_eq!(b.title(), "Demo");
}

#[test]
fn angles_keep_their_unit() {
    assert_eq!(rad(1.5f32), Angle::Radians(1.5));
    assert_eq!(deg(90), Angle::Degrees(90));
}

#[test]
fn angles_convert_by_the_given_factor() {
    let per_degree = 0.017453292519943295f64;
    let per_radian = 57.29577951308232f64;
    assert_eq!(deg(180.0).to_radians(per_degree), Angle::Radians(180.0 * per_degree));
    assert_eq!(rad(2.0).to_radians(per_degree), Angle::Radians(2.0));
    assert_eq!(rad(2.0).to_degrees(per_radian), Angle::Degrees(2.0 * per_radian));
    assert_eq!(deg(45.0).to_degrees(per_radian), Angle::Degrees(45.0));
    match deg(180.0).to_radians(per_degree) {
        Angle::Radians(a) => assert!((a - std::f64::consts::PI).abs() < 1e-12),
        Angle::Degrees(_) => panic!("still in degrees"),
    }
    assert_eq!(deg(3).to_radians(7), Angle::Radians(21));
    assert_eq!(rad(3).to_degrees(7), Angle::Degrees(21));
}

#[test]
fn angles_convert_in_place() {
    let mut a = deg(10);
    a.becomes_radians(3);
    assert_eq!(a, Angle::Radians(30));
    a.becomes_radians(3);
    assert_eq!(a, Angle::Radians(30));
    a.becomes_degrees(2);
    assert_eq!(a, Angle::Degrees(60));
    a.becomes_degrees(2);
    assert_eq!(a, Angle::Degrees(60));
}

#[test]
fn a_clock_made_of_readings_reports_them() {
    let mut time = Time::from_readings(Instant::now(), 5, 9);
    assert_eq!(time.elapsed(), 9);
    assert_eq!(time.delta(), 0);
    time.advance(20);
    assert_eq!(time.elapsed(), 20);
    assert_eq!(time.delta(), 11);
}

#[test]
fn a_new_clock_counts_from_its_own_making() {
    let time = Time::new();
    assert!(time.elapsed() < 1_000_000_000);
    assert_eq!(time.delta(), 0);
}

use learn_opengl::camera::{Orientation, FOV_MAX, FOV_MIN, PITCH_LIMIT, UNITS_PER_DEGREE};

fn front(o: &Orientation) -> (f32, f32, f32) {
    let yaw = (o.yaw() as f32 / UNITS_PER_DEGREE as f32).to_radians();
    let pitch = (o.pitch() as f32 / UNITS_PER_DEGREE as f32).to_radians();
    (yaw.cos() * pitch.cos(), pitch.sin(), yaw.sin() * pitch.cos())
}

#[test]
fn new_keeps_yaw_as_given() {
    let o = Orientation::new(-90_000, 0, 45_000);
    assert_eq!(o.yaw(), -90_000);
    assert_eq!(o.pitch(), 0);
    assert_eq!(o.fov(), 45_000);
    assert_eq!(Orientation::new(720_500, 0, 45_000).yaw(), 720_500);
    assert_eq!(Orientation::new(i32::MIN, 0, 45_000).yaw(), i32::MIN as i64);
}

#[test]
fn new_clamps_pitch_and_fov() {
    let o = Orientation::new(0, 120_000, 1_000);
    assert_eq!(o.pitch(), PITCH_LIMIT);
    assert_eq!(o.fov(), FOV_MIN);
    let o = Orientation::new(0, -90_000, 200_000);
    assert_eq!(o.pitch(), -PITCH_LIMIT);
    assert_eq!(o.fov(), FOV_MAX);
}

#[test]
fn baseline_orientation_looks_down_negative_z() {
    let o = Orientation::new(-90_000, 0, 45_000);
    let (x, y, z) = front(&o);
    assert!(x.abs() < 1e-5);
    assert!(y.abs() < 1e-5);
    assert!((z + 1.0).abs() < 1e-5);
}

#[test]
fn look_around_adds_yaw_and_clamps_pitch() {
    let mut o = Orientation::new(-90_000, -10_000, 60_000);
    o.look_around(1_500, 2_000);
    assert_eq!(o.yaw(), -88_500);
    assert_eq!(o.pitch(), -8_000);
    o.look_around(460_000, 500_000);
    assert_eq!(o.yaw(), 371_500);
    assert_eq!(o.pitch(), PITCH_LIMIT);
    o.look_around(-20_000, -i32::MAX);
    assert_eq!(o.yaw(), 351_500);
    assert_eq!(o.pitch(), -PITCH_LIMIT);
    assert_eq!(o.fov(), 60_000);
}

#[test]
fn pitch_stays_in_range_over_many_looks() {
    let mut o = Orientation::new(0, 0, 45_000);
    let mut yaw: i64 = 0;
    let deltas = [30_000, 50_000, 40_000, -200_000, 7_000, i32::MAX, i32::MIN, -1];
    for (k, d) in deltas.iter().enumerate() {
        let d_yaw = (k as i32) * 12_345 - 40_000;
        o.look_around(d_yaw, *d);
        yaw += d_yaw as i64;
        assert_eq!(o.yaw(), yaw);
        assert!(o.pitch() >= -PITCH_LIMIT && o.pitch() <= PITCH_LIMIT);
        let (x, y, z) = front(&o);
        assert!(((x * x + y * y + z * z).sqrt() - 1.0).abs() < 1e-5);
    }
}

#[test]
fn zoom_clamps_fov() {
    let mut o = Orientation::new(0, 0, 45_000);
    o.zoom(-1_000);
    assert_eq!(o.fov(), 44_000);
    o.zoom(-100_000);
    assert_eq!(o.fov(), FOV_MIN);
    o.zoom(i32::MAX);
    assert_eq!(o.fov(), FOV_MAX);
    o.zoom(-115_000);
    assert_eq!(o.fov(), FOV_MIN);
    assert_eq!(o.yaw(), 0);
    assert_eq!(o.pitch(), 0);
}

#[test]
fn fov_stays_in_range_over_many_zooms() {
    let mut o = Orientation::new(0, 0, 45_000);
    for d in [3_000, -90_000, 1, 200_000, -1, i32::MIN, 60_000] {
        o.zoom(d);
        assert!(o.fov() >= FOV_MIN && o.fov() <= FOV_MAX);
    }
}

#[test]
fn yaw_accumulates_past_a_full_turn() {
    let mut o = Orientation::new(350_000, 0, 45_000);
    o.look_around(20_000, 0);
    assert_eq!(o.yaw(), 370_000);
    for _ in 0..10 {
        o.look_around(-100_000, 0);
    }
    assert_eq!(o.yaw(), -630_000);
}

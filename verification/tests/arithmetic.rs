use text_gem::bounding_box::BoundingBox;
use text_gem::curve::{offset_at, sweep};
use text_gem::heading::{heading_toward, Heading};
use text_gem::input::{step, FrameInput, HeldKeys};
use text_gem::scalar::{clamp_i128, isqrt, quotient, MICROS_PER_SECOND, UNIT};
use text_gem::vec3::{Position, Vec3, POSITION_LIMIT};

#[test]
fn quotient_rounds_toward_zero() {
    assert_eq!(quotient(7, 2), 3);
    assert_eq!(quotient(-7, 2), -3);
    assert_eq!(quotient(6, 2), 3);
    assert_eq!(quotient(-6, 2), -3);
    assert_eq!(quotient(1, 2), 0);
    assert_eq!(quotient(-1, 2), 0);
    assert_eq!(quotient(0, 5), 0);
    assert_eq!(quotient(i128::MAX, 1), i128::MAX);
    assert_eq!(quotient(i128::MIN + 1, 1), i128::MIN + 1);
    assert_eq!(quotient(-1_000_000_000_001, 1_000_000_000_000), -1);
}

#[test]
fn clamp_brings_a_value_into_its_range() {
    assert_eq!(clamp_i128(5, 0, 10), 5);
    assert_eq!(clamp_i128(-5, 0, 10), 0);
    assert_eq!(clamp_i128(15, 0, 10), 10);
    assert_eq!(clamp_i128(i128::MIN, -3, -3), -3);
    assert_eq!(clamp_i128(i128::MAX, -3, -3), -3);
}

#[test]
fn isqrt_is_the_floor_of_the_root() {
    assert_eq!(isqrt(0), 0);
    assert_eq!(isqrt(1), 1);
    assert_eq!(isqrt(2), 1);
    assert_eq!(isqrt(3), 1);
    assert_eq!(isqrt(4), 2);
    assert_eq!(isqrt(99), 9);
    assert_eq!(isqrt(100), 10);
    assert_eq!(isqrt(101), 10);
    assert_eq!(isqrt(1_000_000_000_000), 1_000_000);
    assert_eq!(isqrt(999_999_999_999), 999_999);
    assert_eq!(isqrt(u128::MAX), u64::MAX);
    assert_eq!(isqrt((u64::MAX as u128) * (u64::MAX as u128)), u64::MAX);
    assert_eq!(isqrt((u64::MAX as u128) * (u64::MAX as u128) - 1), u64::MAX - 1);
}

#[test]
fn isqrt_brackets_every_small_number() {
    for n in 0u128..5_000 {
        let r = isqrt(n) as u128;
        assert!(r * r <= n && n < (r + 1) * (r + 1));
    }
}

#[test]
fn the_scales_are_millionths() {
    assert_eq!(UNIT, 1_000_000);
    assert_eq!(MICROS_PER_SECOND, 1_000_000);
    assert_eq!(POSITION_LIMIT, 1i64 << 33);
}

#[test]
fn a_step_is_speed_times_time_rounded_down() {
    assert_eq!(step(100_000, 500_000), 50_000);
    assert_eq!(step(100_000, 0), 0);
    assert_eq!(step(0, 1_000_000), 0);
    assert_eq!(step(7, 999_999), 6);
    assert_eq!(step(7, 1_000_000), 7);
    assert_eq!(step(1, 999_999), 0);
    assert_eq!(step(u32::MAX, 1_000_000), u32::MAX as i64);
    assert_eq!(step(800_000, 16_667), 13_333);
}

#[test]
fn directions_follow_the_keys() {
    let none = HeldKeys::default();
    let input = |scroll_delta: i64, held_keys: HeldKeys| FrameInput { scroll_delta, held_keys, dt: 0 };
    assert_eq!(input(0, none).zoom_direction(), 0);
    assert_eq!(input(9, none).zoom_direction(), 1);
    assert_eq!(input(-9, none).zoom_direction(), -1);
    assert_eq!(input(9, HeldKeys { zoom_in: true, ..none }).zoom_direction(), -1);
    assert_eq!(input(-9, HeldKeys { zoom_out: true, ..none }).zoom_direction(), 1);
    assert_eq!(input(-9, HeldKeys { zoom_in: true, zoom_out: true, ..none }).zoom_direction(), 1);
    assert_eq!(input(0, none).rotation_direction(), 0);
    assert_eq!(input(0, HeldKeys { rotate_left: true, ..none }).rotation_direction(), -1);
    assert_eq!(input(0, HeldKeys { rotate_right: true, ..none }).rotation_direction(), 1);
    assert_eq!(
        input(0, HeldKeys { rotate_left: true, rotate_right: true, ..none }).rotation_direction(),
        1
    );
    assert_eq!(input(0, none).forward_direction(), 0);
    assert_eq!(input(0, HeldKeys { forward: true, ..none }).forward_direction(), 1);
    assert_eq!(input(0, HeldKeys { back: true, ..none }).forward_direction(), -1);
    assert_eq!(input(0, HeldKeys { forward: true, back: true, ..none }).forward_direction(), -1);
    assert_eq!(input(0, none).right_direction(), 0);
    assert_eq!(input(0, HeldKeys { left: true, ..none }).right_direction(), 1);
    assert_eq!(input(0, HeldKeys { right: true, ..none }).right_direction(), -1);
    assert_eq!(input(0, HeldKeys { left: true, right: true, ..none }).right_direction(), 1);
    assert!(!input(3, HeldKeys { zoom_in: true, rotate_left: true, ..none }).wants_pan());
    assert!(input(0, HeldKeys { right: true, ..none }).wants_pan());
    assert!(input(0, HeldKeys { back: true, ..none }).wants_pan());
}

#[test]
fn elapsed_time_is_cut_to_a_second() {
    let at = |dt: i64| FrameInput { scroll_delta: 0, held_keys: HeldKeys::default(), dt };
    assert_eq!(at(0).clamped_dt(), 0);
    assert_eq!(at(16_667).clamped_dt(), 16_667);
    assert_eq!(at(1_000_000).clamped_dt(), 1_000_000);
    assert_eq!(at(1_000_001).clamped_dt(), 1_000_000);
    assert_eq!(at(i64::MAX).clamped_dt(), 1_000_000);
    assert_eq!(at(-1).clamped_dt(), 0);
    assert_eq!(at(i64::MIN).clamped_dt(), 0);
}

#[test]
fn vectors_take_minimum_and_maximum_by_component() {
    let a = Vec3::new(1, -5, 9);
    let b = Vec3::new(-1, 5, 9);
    assert_eq!(a.min(b), Vec3::new(-1, -5, 9));
    assert_eq!(a.max(b), Vec3::new(1, 5, 9));
    assert_eq!(Vec3::default(), Vec3::new(0, 0, 0));
    assert_eq!(Position::offset_from(a, b), Position::new(0, 0, 18));
}

#[test]
fn positions_know_their_range() {
    assert!(Position::new(0, 0, 0).in_range());
    assert!(Position::new(POSITION_LIMIT, -POSITION_LIMIT, 1).in_range());
    assert!(!Position::new(POSITION_LIMIT + 1, 0, 0).in_range());
    assert!(!Position::new(0, -POSITION_LIMIT - 1, 0).in_range());
    assert!(!Position::new(0, 0, i64::MAX).in_range());
    assert!(!Position::new(0, 0, i64::MIN).in_range());
}

#[test]
fn a_box_orders_its_corners() {
    let bounds = BoundingBox::new(Vec3::new(3, -2, 7), Vec3::new(-3, 2, 7));
    assert_eq!(bounds.min(), Vec3::new(-3, -2, 7));
    assert_eq!(bounds.max(), Vec3::new(3, 2, 7));
    assert_eq!(bounds, BoundingBox::new(Vec3::new(-3, 2, 7), Vec3::new(3, -2, 7)));
}

#[test]
fn the_default_box_holds_everything() {
    let bounds = BoundingBox::default();
    assert_eq!(bounds.min(), Vec3::new(i32::MIN, i32::MIN, i32::MIN));
    assert_eq!(bounds.max(), Vec3::new(i32::MAX, i32::MAX, i32::MAX));
    let far = Vec3::new(i32::MIN, i32::MAX, 0);
    assert_eq!(bounds.clamp(far), far);
    assert_eq!(
        bounds.clamp_wide(i128::MIN, i128::MAX, 12),
        Vec3::new(i32::MIN, i32::MAX, 12)
    );
}

#[test]
fn a_box_clamps_each_axis_on_its_own() {
    let bounds = BoundingBox::new(Vec3::new(-3000, 15, -3000), Vec3::new(3000, 4000, 3000));
    assert_eq!(bounds.clamp(Vec3::new(0, 0, 0)), Vec3::new(0, 15, 0));
    assert_eq!(bounds.clamp(Vec3::new(-3001, 4001, 3000)), Vec3::new(-3000, 4000, 3000));
    assert_eq!(bounds.clamp(Vec3::new(12, 16, -12)), Vec3::new(12, 16, -12));
    assert_eq!(bounds.clamp_wide(1 << 100, -(1 << 100), 5), Vec3::new(3000, 15, 5));
    let clamped = bounds.clamp(Vec3::new(9999, -9999, 1));
    assert_eq!(bounds.clamp(clamped), clamped);
}

#[test]
fn the_offset_is_interpolated_between_two_samples() {
    let curve = vec![Vec3::new(0, 0, 0), Vec3::new(10, 100, 0), Vec3::new(40, 200, -20)];
    assert_eq!(offset_at(&curve, 0), Vec3::new(0, 0, 0));
    assert_eq!(offset_at(&curve, 250_000), Vec3::new(5, 50, 0));
    assert_eq!(offset_at(&curve, 500_000), Vec3::new(10, 100, 0));
    assert_eq!(offset_at(&curve, 750_000), Vec3::new(25, 150, -10));
    assert_eq!(offset_at(&curve, UNIT), Vec3::new(40, 200, -20));
    assert_eq!(offset_at(&curve, 1), Vec3::new(0, 0, 0));
    assert_eq!(offset_at(&curve, 500_001), Vec3::new(10, 100, 0));
    assert_eq!(offset_at(&curve, 999_999), Vec3::new(39, 199, -19));
}

#[test]
fn interpolation_rounds_toward_the_lower_sample() {
    let up = vec![Vec3::new(0, 0, 0), Vec3::new(1, 3, -1)];
    assert_eq!(offset_at(&up, 999_999), Vec3::new(0, 2, 0));
    assert_eq!(offset_at(&up, 500_000), Vec3::new(0, 1, 0));
    let down = vec![Vec3::new(1, 3, -1), Vec3::new(0, 0, 0)];
    assert_eq!(offset_at(&down, 999_999), Vec3::new(1, 1, -1));
    assert_eq!(offset_at(&down, 1), Vec3::new(1, 3, -1));
}

#[test]
fn a_curve_of_one_sample_is_that_sample() {
    let curve = vec![Vec3::new(4, 5, 6)];
    assert_eq!(offset_at(&curve, 0), Vec3::new(4, 5, 6));
    assert_eq!(offset_at(&curve, 456_789), Vec3::new(4, 5, 6));
    assert_eq!(offset_at(&curve, UNIT), Vec3::new(4, 5, 6));
}

#[test]
fn interpolation_spans_the_whole_coordinate_range() {
    let curve = vec![Vec3::new(i32::MIN, i32::MAX, 0), Vec3::new(i32::MAX, i32::MIN, 0)];
    assert_eq!(offset_at(&curve, 500_000), Vec3::new(-1, 0, 0));
    assert_eq!(offset_at(&curve, UNIT), Vec3::new(i32::MAX, i32::MIN, 0));
    assert_eq!(offset_at(&curve, 0), Vec3::new(i32::MIN, i32::MAX, 0));
}

#[test]
fn a_long_curve_is_indexed_by_the_zoom_level() {
    let curve: Vec<Vec3> = (0..301).map(|i| Vec3::new(i * 10, -i, 0)).collect();
    for step in 0..=300 {
        let zoom = step as i64 * UNIT / 300;
        let at = offset_at(&curve, zoom);
        // the level falls on, or just below, sample `step`
        assert!(at.x <= step * 10 && step * 10 - at.x <= 1);
        assert!(at.y >= -step && at.y + step <= 1);
    }
    assert_eq!(offset_at(&curve, 5_000), Vec3::new(15, -1, 0));
}

#[test]
fn a_sweep_samples_from_near_toward_far() {
    let offsets = sweep(Vec3::new(100, 30, 0), Vec3::new(1000, 4000, 0), 300);
    assert_eq!(offsets.len(), 300);
    assert_eq!(offsets[0], Vec3::new(100, 30, 0));
    assert_eq!(offsets[1], Vec3::new(103, 43, 0));
    assert_eq!(offsets[150], Vec3::new(550, 2015, 0));
    assert_eq!(offsets[299], Vec3::new(997, 3986, 0));
    for pair in offsets.windows(2) {
        assert!(pair[0].x <= pair[1].x && pair[0].y <= pair[1].y && pair[0].z == 0);
    }
}

#[test]
fn a_sweep_may_run_downward_or_be_empty() {
    assert_eq!(sweep(Vec3::new(1, 2, 3), Vec3::new(4, 5, 6), 0), Vec::<Vec3>::new());
    assert_eq!(sweep(Vec3::new(1, 2, 3), Vec3::new(4, 5, 6), 1), vec![Vec3::new(1, 2, 3)]);
    assert_eq!(
        sweep(Vec3::new(10, 0, -10), Vec3::new(0, 0, 0), 4),
        vec![Vec3::new(10, 0, -10), Vec3::new(8, 0, -8), Vec3::new(5, 0, -5), Vec3::new(3, 0, -3)]
    );
    let wide = sweep(Vec3::new(i32::MIN, 0, 0), Vec3::new(i32::MAX, 0, 0), 2);
    assert_eq!(wide, vec![Vec3::new(i32::MIN, 0, 0), Vec3::new(-1, 0, 0)]);
}

#[test]
fn the_heading_lies_in_the_plane_orthogonal_to_up() {
    let up = Vec3::new(0, 1, 0);
    let origin = Vec3::new(0, 0, 0);
    assert_eq!(
        heading_toward(origin, Position::new(10, 5, 0), up),
        Some(Heading { forward: Vec3::new(-UNIT as i32, 0, 0), right: Vec3::new(0, 0, UNIT as i32) })
    );
    assert_eq!(
        heading_toward(origin, Position::new(0, 5, -10), up),
        Some(Heading { forward: Vec3::new(0, 0, UNIT as i32), right: Vec3::new(UNIT as i32, 0, 0) })
    );
    assert_eq!(
        heading_toward(Vec3::new(3, 0, 4), Position::new(0, 100, 0), up),
        Some(Heading {
            forward: Vec3::new(600_000, 0, 800_000),
            right: Vec3::new(800_000, 0, -600_000)
        })
    );
}

#[test]
fn the_heading_does_not_depend_on_the_length_of_up() {
    let origin = Vec3::new(0, 0, 0);
    let camera = Position::new(3, 9, 4);
    let unit = heading_toward(origin, camera, Vec3::new(0, 1, 0));
    assert_eq!(
        unit,
        Some(Heading {
            forward: Vec3::new(-600_000, 0, -800_000),
            right: Vec3::new(-800_000, 0, 600_000)
        })
    );
    assert_eq!(heading_toward(origin, camera, Vec3::new(0, 1_000, 0)), unit);
    assert_eq!(heading_toward(origin, camera, Vec3::new(0, i32::MAX, 0)), unit);
}

#[test]
fn the_heading_turns_over_with_up() {
    let found = heading_toward(Vec3::new(0, 0, 0), Position::new(10, 5, 0), Vec3::new(0, -1, 0));
    assert_eq!(
        found,
        Some(Heading { forward: Vec3::new(-UNIT as i32, 0, 0), right: Vec3::new(0, 0, -UNIT as i32) })
    );
}

#[test]
fn the_heading_serves_other_axes() {
    let origin = Vec3::new(0, 0, 0);
    assert_eq!(
        heading_toward(origin, Position::new(0, -8, 3), Vec3::new(0, 0, 1)),
        Some(Heading { forward: Vec3::new(0, UNIT as i32, 0), right: Vec3::new(-UNIT as i32, 0, 0) })
    );
    assert_eq!(
        heading_toward(origin, Position::new(10, 3, 4), Vec3::new(0, 3, 4)),
        Some(Heading {
            forward: Vec3::new(-UNIT as i32, 0, 0),
            right: Vec3::new(0, -800_000, 600_000)
        })
    );
}

#[test]
fn there_is_no_heading_straight_along_up_or_without_up() {
    let origin = Vec3::new(0, 0, 0);
    assert_eq!(heading_toward(origin, Position::new(0, 7, 0), Vec3::new(0, 1, 0)), None);
    assert_eq!(heading_toward(origin, Position::new(0, 0, 0), Vec3::new(0, 1, 0)), None);
    assert_eq!(heading_toward(origin, Position::new(5, 5, 5), Vec3::new(0, 0, 0)), None);
    assert_eq!(heading_toward(origin, Position::new(6, 0, -8), Vec3::new(-3, 0, 4)), None);
}

#[test]
fn the_heading_holds_at_the_ends_of_the_range() {
    let far = heading_toward(
        Vec3::new(i32::MAX, i32::MAX, i32::MAX),
        Position::new(-POSITION_LIMIT, -POSITION_LIMIT, -POSITION_LIMIT),
        Vec3::new(i32::MIN, i32::MAX, i32::MIN),
    )
    .unwrap();
    for v in [far.forward, far.right] {
        for c in [v.x, v.y, v.z] {
            assert!(-UNIT <= c as i64 && c as i64 <= UNIT);
        }
        let length = ((v.x as f64).powi(2) + (v.y as f64).powi(2) + (v.z as f64).powi(2)).sqrt();
        assert!((length - UNIT as f64).abs() < 4.0);
    }
    let dot = far.forward.x as f64 * far.right.x as f64
        + far.forward.y as f64 * far.right.y as f64
        + far.forward.z as f64 * far.right.z as f64;
    assert!(dot.abs() < 8.0 * UNIT as f64);
}

#[test]
fn headings_have_unit_length_and_are_orthogonal() {
    let up = Vec3::new(1, 2, -2);
    for (x, y, z) in [(10, 0, 0), (-7, 3, 11), (1000, -999, 1), (0, 0, 1), (123_456, 7, -654_321)] {
        let found = heading_toward(Vec3::new(5, -5, 5), Position::new(x, y, z), up);
        let Heading { forward, right } = found.unwrap();
        let norm = |v: Vec3| ((v.x as f64).powi(2) + (v.y as f64).powi(2) + (v.z as f64).powi(2)).sqrt();
        let dot = |a: Vec3, b: Vec3| {
            a.x as f64 * b.x as f64 + a.y as f64 * b.y as f64 + a.z as f64 * b.z as f64
        };
        let unit = UNIT as f64;
        assert!((norm(right) - unit).abs() <= 3.0);
        assert!(dot(forward, right).abs() <= 3.0 * unit);
        assert!(dot(right, up).abs() <= 3.0 * 3.0);
        // forward is as exact as the projected direction is long
        assert!(norm(forward) <= unit + 3.0);
    }
}

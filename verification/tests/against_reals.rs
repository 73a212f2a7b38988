use text_gem::bounding_box::BoundingBox;
use text_gem::camera::{CameraTarget, Speeds};
use text_gem::curve::offset_at;
use text_gem::heading::heading_toward;
use text_gem::input::{FrameInput, HeldKeys};
use text_gem::scalar::UNIT;
use text_gem::vec3::{Position, Vec3};

/// A small generator of numbers that look random and are the same on every
/// run.
struct Dice(u64);

impl Dice {
    fn next(&mut self) -> u64 {
        self.0 = self.0.wrapping_mul(6364136223846793005).wrapping_add(1442695040888963407);
        self.0 >> 11
    }

    fn below(&mut self, bound: u64) -> u64 {
        self.next() % bound
    }

    fn between(&mut self, low: i64, high: i64) -> i64 {
        low + self.below((high - low + 1) as u64) as i64
    }

    fn flag(&mut self) -> bool {
        self.below(2) == 1
    }

    fn keys(&mut self) -> HeldKeys {
        HeldKeys {
            zoom_in: self.flag(),
            zoom_out: self.flag(),
            rotate_left: self.flag(),
            rotate_right: self.flag(),
            forward: self.flag(),
            back: self.flag(),
            left: self.flag(),
            right: self.flag(),
        }
    }
}

fn scene_rig() -> CameraTarget {
    let mut rig = CameraTarget::default()
        .with_bounding_box(BoundingBox::new(
            Vec3::new(-3_000_000, 15_000, -3_000_000),
            Vec3::new(3_000_000, 4_000_000, 3_000_000),
        ))
        .with_speeds(Speeds { zoom: 100_000, rotation: 800_000, pan: 200_000 })
        .rotating(-785_398);
    for i in 0..300 {
        rig.add_zoom_level_offset(Vec3::new(100_000 + 3_000 * i, 30_000 + 13_233 * i, 0));
    }
    rig
}

/// The camera's place for a pose, as the renderer works it out: the anchor
/// turned about the look-at point around the y axis.
fn turned(anchor: Position, look_at: Vec3, rotation: i64) -> Position {
    let angle = rotation as f64 / 1e6;
    let x = (anchor.x - look_at.x as i64) as f64;
    let z = (anchor.z - look_at.z as i64) as f64;
    Position::new(
        look_at.x as i64 + (x * angle.cos() + z * angle.sin()).round() as i64,
        anchor.y,
        look_at.z as i64 + (z * angle.cos() - x * angle.sin()).round() as i64,
    )
}

#[test]
fn a_long_run_of_frames_keeps_the_rig_in_its_ranges() {
    let mut dice = Dice(7);
    let mut rig = scene_rig();
    let mut camera = Position::new(0, 0, 0);
    let bounds = rig.get_bounding_box();
    for _ in 0..20_000 {
        let input = FrameInput {
            scroll_delta: dice.between(-3, 3),
            held_keys: dice.keys(),
            dt: dice.between(0, 1_200_000),
        };
        let frame = rig.update(&input).unwrap();
        if let Some(pose) = frame.pose {
            assert_eq!(pose.rotation, rig.get_rotation());
            assert_eq!(pose.look_at, rig.get_look_at());
            camera = turned(pose.anchor, pose.look_at, pose.rotation);
        }
        assert_eq!(frame.pan_requested, input.wants_pan());
        if frame.pan_requested {
            if let Some(pose) = rig.pan(camera, &input).unwrap() {
                assert_eq!(pose.look_at, rig.get_look_at());
                camera = turned(pose.anchor, pose.look_at, pose.rotation);
            }
        }
        let zoom = rig.get_zoom_level();
        assert!(0 <= zoom && zoom <= UNIT);
        let look_at = rig.get_look_at();
        assert_eq!(bounds.clamp(look_at), look_at);
        assert!(!rig.is_dirty());
    }
}

#[test]
fn interpolation_agrees_with_the_real_numbers() {
    let mut dice = Dice(11);
    for _ in 0..2_000 {
        let length = dice.between(1, 40) as usize;
        let curve: Vec<Vec3> = (0..length)
            .map(|_| {
                Vec3::new(
                    dice.between(-1_000_000, 1_000_000) as i32,
                    dice.between(i32::MIN as i64, i32::MAX as i64) as i32,
                    dice.between(-5, 5) as i32,
                )
            })
            .collect();
        let zoom = dice.between(0, UNIT);
        let found = offset_at(&curve, zoom);
        let place = zoom as f64 / 1e6 * (length - 1) as f64;
        let lower = place.floor() as usize;
        let upper = place.ceil() as usize;
        let mix = place - lower as f64;
        let lerp = |a: i32, b: i32| a as f64 + (b as f64 - a as f64) * mix;
        for (got, a, b) in [
            (found.x, curve[lower].x, curve[upper].x),
            (found.y, curve[lower].y, curve[upper].y),
            (found.z, curve[lower].z, curve[upper].z),
        ] {
            assert!((got as f64 - lerp(a, b)).abs() <= 1.0 + 1e-3);
            assert!(a.min(b) <= got && got <= a.max(b));
        }
    }
}

#[test]
fn headings_agree_with_the_real_numbers() {
    let mut dice = Dice(13);
    for _ in 0..2_000 {
        let look_at = Vec3::new(
            dice.between(-3_000_000, 3_000_000) as i32,
            dice.between(0, 4_000_000) as i32,
            dice.between(-3_000_000, 3_000_000) as i32,
        );
        let camera = Position::new(
            dice.between(-5_000_000, 5_000_000),
            dice.between(0, 9_000_000),
            dice.between(-5_000_000, 5_000_000),
        );
        let dx = (look_at.x as i64 - camera.x) as f64;
        let dz = (look_at.z as i64 - camera.z) as f64;
        let length = (dx * dx + dz * dz).sqrt();
        let found = heading_toward(look_at, camera, Vec3::new(0, 1, 0));
        if length == 0.0 {
            assert_eq!(found, None);
            continue;
        }
        let found = found.unwrap();
        let unit = UNIT as f64;
        assert!((found.forward.x as f64 - dx / length * unit).abs() <= 2.0);
        assert_eq!(found.forward.y, 0);
        assert!((found.forward.z as f64 - dz / length * unit).abs() <= 2.0);
        // a quarter turn about y takes (x, z) to (z, -x)
        assert!((found.right.x as f64 - dz / length * unit).abs() <= 3.0);
        assert_eq!(found.right.y, 0);
        assert!((found.right.z as f64 + dx / length * unit).abs() <= 3.0);
    }
}

#[test]
fn pans_agree_with_the_real_numbers() {
    let mut dice = Dice(17);
    for _ in 0..2_000 {
        let mut rig = CameraTarget::default()
            .with_speeds(Speeds { zoom: 0, rotation: 0, pan: dice.between(0, 500_000) as u32 })
            .looking_at(Vec3::new(
                dice.between(-1_000_000, 1_000_000) as i32,
                dice.between(-1_000, 1_000) as i32,
                dice.between(-1_000_000, 1_000_000) as i32,
            ))
            .with_zoom_level_offset(Vec3::new(1, 1, 1))
            .with_zoom_level_offset(Vec3::new(2, 2, 2));
        rig.update_transform().unwrap();
        let before = rig.get_look_at();
        let camera = Position::new(
            before.x as i64 + dice.between(-900_000, 900_000),
            before.y as i64 + dice.between(1, 900_000),
            before.z as i64 + dice.between(-900_000, 900_000),
        );
        let input = FrameInput {
            scroll_delta: 0,
            held_keys: HeldKeys { zoom_in: false, zoom_out: false, rotate_left: false, rotate_right: false, ..dice.keys() },
            dt: dice.between(0, 2_000_000),
        };
        rig.pan(camera, &input).unwrap();
        let after = rig.get_look_at();
        assert_eq!(after.y, before.y);

        let dx = (before.x as i64 - camera.x) as f64;
        let dz = (before.z as i64 - camera.z) as f64;
        let length = (dx * dx + dz * dz).sqrt();
        if length == 0.0 {
            assert_eq!(after, before);
            continue;
        }
        let (fx, fz) = (dx / length, dz / length);
        let (rx, rz) = (fz, -fx);
        let forward = input.forward_direction() as f64;
        let right = input.right_direction() as f64;
        let moved = rig.get_speeds().pan as f64 * input.clamped_dt() as f64 / 1e6;
        let x = before.x as f64 + (fx * forward + rx * right) * moved;
        let z = before.z as f64 + (fz * forward + rz * right) * moved;
        assert!((after.x as f64 - x).abs() <= 2.5);
        assert!((after.z as f64 - z).abs() <= 2.5);
    }
}

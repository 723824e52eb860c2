use raytracer::{
    closest_hit, dielectric_branch, header, metal_scatters, pick_root, pixel_line, push_decimal,
    scan_position, side_of, Branch, Outcome, Path, RenderSettings, Roots, SettingsError, Side, Step,
    MAX_DEPTH,
};

/// The key of a non-negative ray parameter: its bits, which order such
/// floats as their values.
fn key(t: f64) -> i64 {
    assert!(t >= 0.0);
    t.to_bits() as i64
}

fn roots(near: i64, far: i64) -> Option<Roots> {
    Some(Roots { near, far })
}

#[test]
fn path_starts_at_depth_zero() {
    let p = Path::new();
    assert_eq!(p.depth(), 0);
    assert_eq!(p.on_world(false), Step::Sky);
    assert_eq!(p.on_world(true), Step::Scatter);
}

#[test]
fn fully_reflective_scene_stops_after_max_depth_bounces() {
    let mut p = Path::new();
    let mut bounces: u32 = 0;
    let mut outcomes: Vec<Outcome> = Vec::new();
    loop {
        match p.on_world(true) {
            Step::Scatter => {
                outcomes.push(Outcome::Scattered);
                p.bounce();
                bounces += 1;
            }
            Step::Black => break,
            Step::Sky => panic!("every ray hits in this scene"),
        }
        assert!(bounces <= 1000);
    }
    assert_eq!(bounces, 50);
    assert_eq!(MAX_DEPTH, 50);
    assert_eq!(p.depth(), 50);
    assert_eq!(outcomes.len(), 50);
}

#[test]
fn miss_after_bounces_takes_the_sky() {
    let mut p = Path::new();
    p.bounce();
    p.bounce();
    assert_eq!(p.depth(), 2);
    assert_eq!(p.on_world(false), Step::Sky);
}

#[test]
fn pick_root_prefers_the_nearer_root() {
    assert_eq!(pick_root(Roots { near: 2, far: 8 }, 1, 10), Some(2));
}

#[test]
fn pick_root_falls_back_to_the_farther_root() {
    // The ray starts inside the sphere: the nearer root lies behind it.
    assert_eq!(pick_root(Roots { near: -4, far: 8 }, 1, 10), Some(8));
}

#[test]
fn pick_root_excludes_both_bounds() {
    assert_eq!(pick_root(Roots { near: 1, far: 10 }, 1, 10), None);
    assert_eq!(pick_root(Roots { near: 1, far: 9 }, 1, 10), Some(9));
    assert_eq!(pick_root(Roots { near: 12, far: 20 }, 1, 10), None);
}

#[test]
fn closest_hit_of_two_overlapping_spheres() {
    // Two spheres along -z: radius 0.5 at distance 1, radius 1 at distance 1.2.
    let t_min = key(0.001);
    let t_max = key(f64::MAX);
    let world = vec![roots(key(0.5), key(1.5)), roots(key(0.2), key(2.2))];
    assert_eq!(closest_hit(&world, t_min, t_max), Some((1, key(0.2))));
    let swapped = vec![roots(key(0.2), key(2.2)), roots(key(0.5), key(1.5))];
    assert_eq!(closest_hit(&swapped, t_min, t_max), Some((0, key(0.2))));
}

#[test]
fn closest_hit_of_an_empty_world_is_none() {
    assert_eq!(closest_hit(&Vec::new(), 0, 100), None);
}

#[test]
fn closest_hit_when_every_ray_misses_is_none() {
    let world = vec![None, roots(-5, -1), roots(200, 300), None];
    assert_eq!(closest_hit(&world, 0, 100), None);
}

#[test]
fn closest_hit_keeps_the_first_of_equal_hits() {
    let world = vec![None, roots(7, 9), roots(7, 8), roots(-1, 7)];
    assert_eq!(closest_hit(&world, 0, 100), Some((1, 7)));
}

#[test]
fn closest_hit_uses_the_farther_root_when_inside() {
    let world = vec![roots(-3, 40), roots(50, 60)];
    assert_eq!(closest_hit(&world, 0, 100), Some((0, 40)));
}

#[test]
fn dielectric_side_follows_the_dot_sign() {
    assert_eq!(side_of(true), Side::Exiting);
    assert_eq!(side_of(false), Side::Entering);
}

#[test]
fn dielectric_branch_splits_on_the_draw() {
    assert_eq!(dielectric_branch(true, 40, 30), Branch::Refract);
    assert_eq!(dielectric_branch(true, 30, 30), Branch::Refract);
    assert_eq!(dielectric_branch(true, 29, 30), Branch::Reflect);
}

#[test]
fn dielectric_total_internal_reflection_always_reflects() {
    assert_eq!(dielectric_branch(false, 100, 0), Branch::Reflect);
}

#[test]
fn metal_absorbs_rays_into_the_surface() {
    assert!(metal_scatters(true));
    assert!(!metal_scatters(false));
}

#[test]
fn header_of_full_hd_image() {
    assert_eq!(header(1920, 1080), b"P3\n1920 1080\n255\n".to_vec());
    assert_eq!(header(0, 7), b"P3\n0 7\n255\n".to_vec());
}

#[test]
fn pixel_line_of_three_channels() {
    assert_eq!(pixel_line(0, 255, 17), b"0 255 17\n".to_vec());
    assert_eq!(pixel_line(65535, 10, 9), b"65535 10 9\n".to_vec());
}

#[test]
fn push_decimal_appends_digits() {
    let mut out = b"x=".to_vec();
    push_decimal(&mut out, 120);
    assert_eq!(out, b"x=120".to_vec());
    let mut big = Vec::new();
    push_decimal(&mut big, u64::MAX);
    assert_eq!(big, u64::MAX.to_string().into_bytes());
    let mut zero = Vec::new();
    push_decimal(&mut zero, 0);
    assert_eq!(zero, b"0".to_vec());
}

#[test]
fn scan_goes_from_the_top_row_down() {
    assert_eq!(scan_position(3, 2, 0), (0, 1));
    assert_eq!(scan_position(3, 2, 2), (2, 1));
    assert_eq!(scan_position(3, 2, 3), (0, 0));
    assert_eq!(scan_position(3, 2, 5), (2, 0));
}

#[test]
fn settings_accept_a_positive_image_and_sample_count() {
    let s = RenderSettings::new(1920, 1080, 200).unwrap();
    assert_eq!((s.width(), s.height(), s.samples()), (1920, 1080, 200));
    assert_eq!(s.pixel_count(), 2_073_600);
    let big = RenderSettings::new(u32::MAX, u32::MAX, 1).unwrap();
    assert_eq!(big.pixel_count(), u32::MAX as u64 * u32::MAX as u64);
}

#[test]
fn settings_refuse_an_empty_image() {
    assert_eq!(RenderSettings::new(0, 1080, 200), Err(SettingsError::EmptyImage));
    assert_eq!(RenderSettings::new(1920, 0, 0), Err(SettingsError::EmptyImage));
}

#[test]
fn settings_refuse_zero_samples() {
    assert_eq!(RenderSettings::new(2, 2, 0), Err(SettingsError::NoSamples));
}

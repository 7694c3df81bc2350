use raytracer::color::Color;
use raytracer::frame::frame_bytes;
use raytracer::geometry::{box_hit, box_normal, sphere_root, triangle_hit, BoxHit, SphereRoot};
use raytracer::scene::{scan_step, HitOutcome};
use raytracer::shading::{
    light_blocked, lit_lights, offset_sign, refraction_outcome, Refraction,
};

fn outcome(hit: bool, closer: bool, within_range: bool) -> HitOutcome {
    HitOutcome {
        hit,
        closer,
        within_range,
    }
}

#[test]
fn box_normal_prefers_x_then_y_then_z() {
    assert_eq!(box_normal(true, true, true, -1, 1, 1), (-1, 0, 0));
    assert_eq!(box_normal(false, true, true, 1, -1, 1), (0, -1, 0));
    assert_eq!(box_normal(false, false, true, 1, 1, 1), (0, 0, 1));
}

#[test]
fn box_normal_zero_off_faces() {
    assert_eq!(box_normal(false, false, false, 1, -1, 1), (0, 0, 0));
}

#[test]
fn box_hit_cases() {
    assert_eq!(box_hit(true, false, false), BoxHit::Miss);
    assert_eq!(box_hit(false, true, true), BoxHit::Miss);
    assert_eq!(box_hit(false, false, true), BoxHit::Exit);
    assert_eq!(box_hit(false, false, false), BoxHit::Entry);
}

#[test]
fn sphere_root_cases() {
    assert_eq!(sphere_root(false, true, true), None);
    assert_eq!(sphere_root(true, true, true), Some(SphereRoot::Near));
    assert_eq!(sphere_root(true, false, true), Some(SphereRoot::Far));
    assert_eq!(sphere_root(true, false, false), None);
}

#[test]
fn triangle_hit_needs_every_test() {
    assert!(triangle_hit(false, true, true, true, true));
    assert!(!triangle_hit(true, true, true, true, true));
    assert!(!triangle_hit(false, false, true, true, true));
    assert!(!triangle_hit(false, true, false, true, true));
    assert!(!triangle_hit(false, true, true, false, true));
    assert!(!triangle_hit(false, true, true, true, false));
}

#[test]
fn scan_keeps_nearest_within_range() {
    let mut best = None;
    best = scan_step(best, 0, outcome(true, true, true));
    assert_eq!(best, Some(0));
    best = scan_step(best, 1, outcome(true, false, true));
    assert_eq!(best, Some(0));
    best = scan_step(best, 2, outcome(true, true, true));
    assert_eq!(best, Some(2));
    best = scan_step(best, 3, outcome(false, false, false));
    assert_eq!(best, Some(2));
}

#[test]
fn scan_beyond_render_distance_finds_nothing() {
    let mut best = None;
    for index in 0..4 {
        best = scan_step(best, index, outcome(true, true, false));
    }
    assert_eq!(best, None);
}

#[test]
fn light_blocked_only_by_closer_hit() {
    assert!(light_blocked(true, true));
    assert!(!light_blocked(true, false));
    assert!(!light_blocked(false, false));
}

#[test]
fn lit_lights_skips_blocked() {
    assert_eq!(lit_lights(&vec![false, true, false, true]), vec![0, 2]);
    assert_eq!(lit_lights(&vec![true, true]), Vec::<usize>::new());
    assert_eq!(lit_lights(&Vec::new()), Vec::<usize>::new());
}

#[test]
fn offset_sign_follows_direction() {
    assert_eq!(offset_sign(true), -1);
    assert_eq!(offset_sign(false), 1);
}

#[test]
fn refraction_outcome_cases() {
    assert_eq!(refraction_outcome(false, true), Refraction::Dropped);
    assert_eq!(refraction_outcome(true, true), Refraction::Dropped);
    assert_eq!(
        refraction_outcome(true, false),
        Refraction::Transmit { exiting: true }
    );
    assert_eq!(
        refraction_outcome(false, false),
        Refraction::Transmit { exiting: false }
    );
}

#[test]
fn frame_bytes_in_color_order() {
    let colors = vec![
        Color { r: 1, g: 2, b: 3 },
        Color { r: 4, g: 5, b: 6 },
        Color { r: 7, g: 8, b: 9 },
        Color { r: 10, g: 11, b: 12 },
    ];
    assert_eq!(frame_bytes(&colors, 2, 2), (1u8..=12).collect::<Vec<u8>>());
}

use raytracer::background::{flat_background, texel_color, texture_dimensions};
use raytracer::color::Color;
use raytracer::frame::{frame_buffer, pixel_position, IMAGE_HEIGHT, IMAGE_WIDTH};
use raytracer::shading::{ray_step, RayStep, MAX_DEPTH};

fn checker_texture() -> image::DynamicImage {
    // 2 x 2 texture, row by row: red, green / blue, white (alpha varies).
    let bytes: Vec<u8> = vec![
        255, 0, 0, 255, 0, 255, 0, 128, 0, 0, 255, 0, 255, 255, 255, 255,
    ];
    let rgba = image::RgbaImage::from_raw(2, 2, bytes).unwrap();
    image::DynamicImage::ImageRgba8(rgba)
}

#[test]
fn as_rgb_keeps_channel_order() {
    let c = Color { r: 10, g: 20, b: 30 };
    assert_eq!(c.as_rgb(), image::Rgb([10, 20, 30]));
}

#[test]
fn flat_background_is_sky_blue() {
    assert_eq!(flat_background(), Color { r: 50, g: 180, b: 200 });
}

#[test]
fn texture_dimensions_of_checker() {
    assert_eq!(texture_dimensions(&checker_texture()), (2, 2));
}

#[test]
fn texel_color_drops_alpha() {
    let t = checker_texture();
    assert_eq!(texel_color(&t, 0, 0), Color { r: 255, g: 0, b: 0 });
    assert_eq!(texel_color(&t, 1, 0), Color { r: 0, g: 255, b: 0 });
    assert_eq!(texel_color(&t, 0, 1), Color { r: 0, g: 0, b: 255 });
    assert_eq!(texel_color(&t, 1, 1), Color { r: 255, g: 255, b: 255 });
}

#[test]
fn pixel_position_walks_rows() {
    assert_eq!(pixel_position(0, IMAGE_WIDTH), (0, 0));
    assert_eq!(pixel_position(1023, IMAGE_WIDTH), (1023, 0));
    assert_eq!(pixel_position(1024, IMAGE_WIDTH), (0, 1));
    assert_eq!(
        pixel_position(IMAGE_WIDTH * IMAGE_HEIGHT - 1, IMAGE_WIDTH),
        (1023, 767)
    );
}

#[test]
fn frame_buffer_lays_out_rows() {
    let colors = vec![
        Color { r: 1, g: 2, b: 3 },
        Color { r: 4, g: 5, b: 6 },
        Color { r: 7, g: 8, b: 9 },
        Color { r: 10, g: 11, b: 12 },
        Color { r: 13, g: 14, b: 15 },
        Color { r: 16, g: 17, b: 18 },
    ];
    let bytes = frame_buffer(&colors, 3, 2).into_raw();
    assert_eq!(bytes, (1u8..=18).collect::<Vec<u8>>());
}

#[test]
fn frame_buffer_full_size() {
    let n = (IMAGE_WIDTH * IMAGE_HEIGHT) as usize;
    let mut colors = vec![Color { r: 0, g: 0, b: 0 }; n];
    colors[n - 1] = Color { r: 9, g: 8, b: 7 };
    let bytes = frame_buffer(&colors, IMAGE_WIDTH, IMAGE_HEIGHT).into_raw();
    assert_eq!(bytes.len(), 3 * n);
    assert_eq!(&bytes[3 * n - 3..], &[9, 8, 7]);
    assert!(bytes[..3 * n - 3].iter().all(|b| *b == 0));
}

#[test]
fn frame_buffer_empty() {
    let bytes = frame_buffer(&Vec::new(), 0, 0).into_raw();
    assert!(bytes.is_empty());
}

#[test]
fn ray_step_background_without_hit() {
    assert_eq!(ray_step(0, false), RayStep::Background);
    assert_eq!(ray_step(3, false), RayStep::Background);
}

#[test]
fn ray_step_shades_hit_one_level_deeper() {
    assert_eq!(ray_step(0, true), RayStep::Shade { child_depth: 1 });
    assert_eq!(ray_step(4, true), RayStep::Shade { child_depth: 5 });
}

#[test]
fn ray_step_background_past_cap() {
    assert_eq!(MAX_DEPTH, 4);
    assert_eq!(ray_step(5, true), RayStep::Background);
    assert_eq!(ray_step(255, true), RayStep::Background);
}

#[test]
fn all_mirror_scene_recursion_ends() {
    // Every ray hits, as inside a closed box of mirrors.
    let mut depth: u8 = 0;
    let mut shaded = 0;
    let mut casts = 1;
    while let RayStep::Shade { child_depth } = ray_step(depth, true) {
        shaded += 1;
        casts += 1;
        depth = child_depth;
        assert!(casts <= 100);
    }
    assert_eq!(shaded, 5);
    assert_eq!(casts, 6);
}

#[test]
fn texel_color_of_rgb_texture() {
    let rgb = image::RgbImage::from_raw(3, 1, vec![1, 2, 3, 4, 5, 6, 7, 8, 9]).unwrap();
    let t = image::DynamicImage::ImageRgb8(rgb);
    assert_eq!(texture_dimensions(&t), (3, 1));
    assert_eq!(texel_color(&t, 2, 0), Color { r: 7, g: 8, b: 9 });
}

#[test]
fn background_sample_without_texture_is_flat() {
    assert_eq!(
        raytracer::background::background_sample(None, 7, 9),
        Color { r: 50, g: 180, b: 200 }
    );
}

#[test]
fn background_sample_clamps_to_last_texel() {
    let t = checker_texture();
    let sample = raytracer::background::background_sample;
    assert_eq!(sample(Some(&t), 0, 0), Color { r: 255, g: 0, b: 0 });
    assert_eq!(sample(Some(&t), 5, 0), Color { r: 0, g: 255, b: 0 });
    assert_eq!(sample(Some(&t), 0, 9), Color { r: 0, g: 0, b: 255 });
    assert_eq!(sample(Some(&t), u32::MAX, u32::MAX), Color { r: 255, g: 255, b: 255 });
}

//! Tests of the shared numeric transforms: luminance, saturation and
//! scaling.

use ascii_img::common::linear_luma_from_rgb;
use ascii_img::common::resize;
use ascii_img::common::saturate;
use ascii_img::common::target_dimensions;
use ascii_img::Raster;
use ascii_img::Rgb;

#[test]
fn linear_luma_from_rgb_test() {
    let luma = linear_luma_from_rgb(&Rgb::new(0, 0, 0));
    assert_eq!(luma, 0);

    let luma = linear_luma_from_rgb(&Rgb::new(255, 255, 255));
    assert_eq!(luma, 255);
}

#[test]
fn linear_luma_from_rgb_mixed_test() {
    assert_eq!(linear_luma_from_rgb(&Rgb::new(100, 150, 200)), 150);
    assert_eq!(linear_luma_from_rgb(&Rgb::new(255, 0, 0)), 85);
    assert_eq!(linear_luma_from_rgb(&Rgb::new(1, 0, 0)), 0);
}

#[test]
fn resize_test() {
    let image = Raster::new(100, 100, vec![Rgb::new(0, 0, 0); 100 * 100]).unwrap();
    let resized_image = resize(&(Some(150_u32), Some(150_u32)), &image);

    assert_eq!(resized_image.width(), 150);
    assert_eq!(resized_image.height(), 150);
}

#[test]
fn saturate_test() {
    let pixel = saturate(&Rgb::new(255, 255, 255));
    assert_eq!((pixel.r, pixel.g, pixel.b), (255, 255, 255));

    let pixel = saturate(&Rgb::new(255, 0, 0));
    assert_eq!((pixel.r, pixel.g, pixel.b), (255, 0, 0));

    let pixel = saturate(&Rgb::new(100, 100, 100));
    assert_eq!((pixel.r, pixel.g, pixel.b), (255, 255, 255));
}

#[test]
fn saturate_black_test() {
    let pixel = saturate(&Rgb::new(0, 0, 0));
    assert_eq!((pixel.r, pixel.g, pixel.b), (0, 0, 0));
}

#[test]
fn saturate_hue_test() {
    let pixel = saturate(&Rgb::new(100, 50, 0));
    assert_eq!((pixel.r, pixel.g, pixel.b), (255, 127, 0));
}

#[test]
fn target_dimensions_test() {
    assert_eq!(target_dimensions(Some(150), Some(150), 100, 100), (150, 150));
    assert_eq!(target_dimensions(None, None, 100, 100), (100, 50));
    assert_eq!(target_dimensions(Some(100), None, 100, 100), (100, 50));
    assert_eq!(target_dimensions(None, Some(50), 100, 100), (100, 50));
}

#[test]
fn target_dimensions_odd_test() {
    // Fractions are rounded down, uniformly.
    assert_eq!(target_dimensions(Some(151), None, 100, 100), (151, 75));
    assert_eq!(target_dimensions(None, None, 100, 101), (100, 50));
}

#[test]
fn target_dimensions_saturating_test() {
    // A doubled height that cannot fit saturates at the largest width.
    assert_eq!(target_dimensions(None, Some(u32::MAX), 1, 1), (u32::MAX, u32::MAX));
    assert_eq!(target_dimensions(None, Some(u32::MAX / 2), 1, 1), (u32::MAX - 1, u32::MAX / 2));
}

#[test]
fn resize_samples_nearest_test() {
    // A 2x2 quadrant image downscaled to 1x1 keeps the top-left pixel,
    // and upscaled to 4x4 repeats each quadrant.
    let image = Raster::new(
        2,
        2,
        vec![
            Rgb::new(10, 0, 0),
            Rgb::new(0, 20, 0),
            Rgb::new(0, 0, 30),
            Rgb::new(40, 40, 40),
        ],
    )
    .unwrap();
    let small = resize(&(Some(1), Some(1)), &image);
    assert_eq!(small.get(0, 0), Rgb::new(10, 0, 0));

    let big = resize(&(Some(4), Some(4)), &image);
    assert_eq!(big.get(0, 0), Rgb::new(10, 0, 0));
    assert_eq!(big.get(3, 0), Rgb::new(0, 20, 0));
    assert_eq!(big.get(0, 3), Rgb::new(0, 0, 30));
    assert_eq!(big.get(3, 3), Rgb::new(40, 40, 40));
}

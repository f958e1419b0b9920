//! Tests of the raster data model: construction, rejection of empty
//! input, and in-place inversion.

use ascii_img::ConfigError;
use ascii_img::Raster;
use ascii_img::Rgb;

#[test]
fn raster_new_test() {
    let raster = Raster::new(2, 3, vec![Rgb::new(7, 8, 9); 6]).unwrap();
    assert_eq!(raster.width(), 2);
    assert_eq!(raster.height(), 3);
    assert_eq!(raster.get(1, 2), Rgb::new(7, 8, 9));
}

#[test]
fn raster_empty_input_test() {
    assert_eq!(Raster::new(0, 5, vec![]).unwrap_err(), ConfigError::EmptyInput);
    assert_eq!(Raster::new(5, 0, vec![]).unwrap_err(), ConfigError::EmptyInput);
    assert_eq!(Raster::new(0, 0, vec![]).unwrap_err(), ConfigError::EmptyInput);
    assert!(Raster::new(1, 1, vec![Rgb::new(0, 0, 0)]).is_ok());
}

#[test]
fn invert_test() {
    let mut raster = Raster::new(2, 1, vec![Rgb::new(0, 100, 255), Rgb::new(1, 2, 3)]).unwrap();
    raster.invert();
    assert_eq!(raster.get(0, 0), Rgb::new(255, 155, 0));
    assert_eq!(raster.get(1, 0), Rgb::new(254, 253, 252));
}

#[test]
fn invert_twice_restores_test() {
    let original = [Rgb::new(0, 100, 255), Rgb::new(17, 34, 51), Rgb::new(4, 5, 6), Rgb::new(250, 128, 9)];
    let mut raster = Raster::new(2, 2, original.to_vec()).unwrap();
    raster.invert();
    raster.invert();
    assert_eq!(raster.get(0, 0), original[0]);
    assert_eq!(raster.get(1, 0), original[1]);
    assert_eq!(raster.get(0, 1), original[2]);
    assert_eq!(raster.get(1, 1), original[3]);
}

#[test]
fn grayscale_test() {
    let mut raster = Raster::new(1, 1, vec![Rgb::new(100, 150, 200)]).unwrap();
    raster.grayscale();
    assert_eq!(raster.get(0, 0), Rgb::new(150, 150, 150));
}

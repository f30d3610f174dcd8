use amv::average::{calculate_average, can_calculate_average, next_coordinates};
use amv::raster::RgbaImage;
use amv::tint::{create_image, tint_rgb};

fn image_from_fn(width: u32, height: u32, f: impl Fn(u32, u32) -> [u8; 4]) -> RgbaImage {
    let mut data = Vec::new();
    for y in 0..height {
        for x in 0..width {
            data.extend_from_slice(&f(x, y));
        }
    }
    RgbaImage::from_raw(width, height, data).unwrap()
}

#[test]
fn next_coordinates_steps_right_while_inside() {
    assert_eq!(next_coordinates(11, 0, 0, 5), (5, 0));
    assert_eq!(next_coordinates(11, 5, 0, 5), (0, 5));
    assert_eq!(next_coordinates(12, 5, 10, 5), (10, 10));
}

#[test]
fn next_coordinates_wraps_on_narrow_images() {
    assert_eq!(next_coordinates(1, 0, 0, 5), (0, 5));
    assert_eq!(next_coordinates(6, 0, 0, 5), (0, 5));
    assert_eq!(next_coordinates(7, 0, 0, 5), (5, 0));
}

#[test]
fn average_of_single_sample_is_that_pixel() {
    let img = image_from_fn(7, 1, |x, _| if x == 5 { [10, 20, 30, 255] } else { [200, 200, 200, 255] });
    assert!(can_calculate_average(&img));
    assert_eq!(calculate_average(&img), [10, 20, 30]);
}

#[test]
fn average_skips_origin_and_uses_grid() {
    // Samples are (5,0), (0,5), (5,5); every other pixel is ignored.
    let img = image_from_fn(11, 6, |x, y| match (x, y) {
        (5, 0) => [30, 0, 255, 255],
        (0, 5) => [60, 3, 255, 255],
        (5, 5) => [90, 5, 254, 255],
        _ => [255, 255, 0, 0],
    });
    assert!(can_calculate_average(&img));
    assert_eq!(calculate_average(&img), [60, 2, 254]);
}

#[test]
fn average_truncates_division() {
    let img = image_from_fn(7, 6, |x, y| match (x, y) {
        (5, 0) => [1, 2, 3, 0],
        (0, 5) => [2, 2, 2, 0],
        (5, 5) => [2, 2, 2, 0],
        _ => [0, 0, 0, 0],
    });
    assert_eq!(calculate_average(&img), [1, 2, 2]);
}

#[test]
fn average_undefined_without_samples() {
    let img = image_from_fn(6, 5, |_, _| [1, 1, 1, 1]);
    assert!(!can_calculate_average(&img));
    let empty = RgbaImage::from_raw(0, 0, Vec::new()).unwrap();
    assert!(!can_calculate_average(&empty));
}

#[test]
fn from_raw_checks_length() {
    assert!(RgbaImage::from_raw(2, 2, vec![0; 16]).is_some());
    assert!(RgbaImage::from_raw(2, 2, vec![0; 15]).is_none());
}

#[test]
fn tint_keeps_alpha() {
    let mut data = vec![1, 2, 3, 4, 5, 6, 7, 8];
    tint_rgb(&mut data, [9, 10, 11]);
    assert_eq!(data, vec![9, 10, 11, 4, 9, 10, 11, 8]);
}

#[test]
fn tint_accepts_trailing_rgb_group() {
    let mut data = vec![1, 2, 3, 4, 5, 6, 7];
    tint_rgb(&mut data, [0, 0, 0]);
    assert_eq!(data, vec![0, 0, 0, 4, 0, 0, 0]);
}

#[test]
fn create_image_fills_every_pixel() {
    let img = create_image(3, 2, [1, 2, 3, 4]);
    assert_eq!(img.width, 3);
    assert_eq!(img.height, 2);
    assert_eq!(img.data.len(), 24);
    for px in img.data.chunks(4) {
        assert_eq!(px, &[1, 2, 3, 4]);
    }
}

#[test]
fn uniform_colour_averages_to_itself_whatever_the_alpha() {
    let img = image_from_fn(13, 12, |x, y| [40, 50, 60, ((x * 7 + y * 3) % 256) as u8]);
    assert!(can_calculate_average(&img));
    assert_eq!(calculate_average(&img), [40, 50, 60]);
}

#[test]
fn average_stays_within_the_channel_range() {
    let img = image_from_fn(16, 11, |x, y| [(10 + (x * 3 + y) % 11) as u8, 200, (x % 2) as u8 * 255, 255]);
    let avg = calculate_average(&img);
    assert!((10..=20).contains(&avg[0]));
    assert_eq!(avg[1], 200);
    assert!(avg[2] <= 255);
}

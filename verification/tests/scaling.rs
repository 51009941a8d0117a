use image_proxy::grid::PixelGrid;
use image_proxy::scale::{scale_to_fit, scaled_dimensions};

fn flat_grid(width: u32, height: u32, rgba: [u8; 4]) -> PixelGrid {
    let mut samples = Vec::with_capacity((4 * width * height) as usize);
    for _ in 0..(width * height) {
        samples.extend_from_slice(&rgba);
    }
    PixelGrid::new(width, height, samples).expect("a valid grid")
}

#[test]
fn landscape_source_is_bound_by_width() {
    // Scale factor min(100/400, 100/200) = 0.25.
    assert_eq!(scaled_dimensions(400, 200, 100, 100), (100, 50));
}

#[test]
fn portrait_source_is_bound_by_height() {
    assert_eq!(scaled_dimensions(200, 400, 100, 100), (50, 100));
}

#[test]
fn small_source_is_scaled_up() {
    // Scale factor min(2, 2) = 2: scaling up is not a special case.
    assert_eq!(scaled_dimensions(50, 50, 100, 100), (100, 100));
    assert_eq!(scaled_dimensions(10, 5, 100, 100), (100, 50));
}

#[test]
fn source_of_target_size_is_kept() {
    assert_eq!(scaled_dimensions(100, 100, 100, 100), (100, 100));
}

#[test]
fn free_axis_is_rounded_to_nearest() {
    // 2 * 100 / 3 = 66.67 rounds up, 1 * 100 / 3 = 33.33 rounds down.
    assert_eq!(scaled_dimensions(3, 2, 100, 100), (100, 67));
    assert_eq!(scaled_dimensions(2, 3, 100, 100), (67, 100));
    assert_eq!(scaled_dimensions(3, 1, 100, 100), (100, 33));
    assert_eq!(scaled_dimensions(1, 3, 100, 100), (33, 100));
}

#[test]
fn exact_half_is_rounded_up() {
    // 3 * 5 / 10 = 1.5 and 1 * 5 / 10 = 0.5.
    assert_eq!(scaled_dimensions(10, 3, 5, 100), (5, 2));
    assert_eq!(scaled_dimensions(10, 1, 5, 100), (5, 1));
    assert_eq!(scaled_dimensions(3, 10, 100, 5), (2, 5));
}

#[test]
fn free_axis_keeps_at_least_one_pixel() {
    // 1 * 100 / 1000 = 0.1 would round to no pixel at all.
    assert_eq!(scaled_dimensions(1000, 1, 100, 100), (100, 1));
    assert_eq!(scaled_dimensions(1, 1000, 100, 100), (1, 100));
    assert_eq!(scaled_dimensions(65535, 1, 1, 1), (1, 1));
}

#[test]
fn largest_dimensions_do_not_overflow() {
    assert_eq!(
        scaled_dimensions(u32::MAX, u32::MAX, u32::MAX, u32::MAX),
        (u32::MAX, u32::MAX)
    );
    assert_eq!(scaled_dimensions(1, 1, u32::MAX, u32::MAX), (u32::MAX, u32::MAX));
    assert_eq!(scaled_dimensions(u32::MAX, 1, u32::MAX, u32::MAX), (u32::MAX, 1));
    assert_eq!(scaled_dimensions(1, u32::MAX, 7, u32::MAX), (1, u32::MAX));
}

#[test]
fn scaled_size_fits_target_and_meets_one_axis() {
    let sizes = [1u32, 2, 3, 7, 50, 99, 100, 101, 400, 1000, 65535];
    for &w in &sizes {
        for &h in &sizes {
            for &tw in &sizes {
                for &th in &sizes {
                    let (sw, sh) = scaled_dimensions(w, h, tw, th);
                    assert!(1 <= sw && sw <= tw, "{w}x{h} into {tw}x{th}: width {sw}");
                    assert!(1 <= sh && sh <= th, "{w}x{h} into {tw}x{th}: height {sh}");
                    assert!(sw == tw || sh == th, "{w}x{h} into {tw}x{th}: {sw}x{sh}");
                }
            }
        }
    }
}

#[test]
fn scale_to_fit_resamples_to_the_scaled_dimensions() {
    let grid = flat_grid(400, 200, [10, 20, 30, 255]);
    let scaled = scale_to_fit(&grid, 100, 100);
    assert_eq!((scaled.width(), scaled.height()), (100, 50));
    assert_eq!(scaled.samples().len(), 4 * 100 * 50);
}

#[test]
fn scale_to_fit_scales_up_a_small_grid() {
    let grid = flat_grid(50, 50, [200, 100, 50, 255]);
    let scaled = scale_to_fit(&grid, 100, 100);
    assert_eq!((scaled.width(), scaled.height()), (100, 100));
    assert_eq!(scaled.samples().len(), 4 * 100 * 100);
}

#[test]
fn scale_to_fit_keeps_a_flat_colour() {
    let grid = flat_grid(40, 20, [10, 20, 30, 255]);
    let scaled = scale_to_fit(&grid, 10, 10);
    assert_eq!((scaled.width(), scaled.height()), (10, 5));
    for y in 0..5 {
        for x in 0..10 {
            let p = scaled.pixel(x, y);
            assert_eq!((p.r, p.g, p.b, p.a), (10, 20, 30, 255));
        }
    }
}

#[test]
fn scale_to_fit_averages_neighbouring_pixels() {
    // Left half black, right half white, shrunk to a single pixel: grey.
    let mut samples = Vec::new();
    for _y in 0..8 {
        for x in 0..8 {
            let v = if x < 4 { 0 } else { 255 };
            samples.extend_from_slice(&[v, v, v, 255]);
        }
    }
    let grid = PixelGrid::new(8, 8, samples).unwrap();
    let scaled = scale_to_fit(&grid, 1, 1);
    assert_eq!((scaled.width(), scaled.height()), (1, 1));
    let p = scaled.pixel(0, 0);
    assert!(100 <= p.r && p.r <= 155, "red {}", p.r);
    assert_eq!(p.a, 255);
}

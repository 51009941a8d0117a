use image_proxy::canvas::{pad_to_canvas, BLANK_SAMPLE};
use image_proxy::grid::{PixelGrid, Rgba};

const BLANK: Rgba = Rgba { r: 0, g: 0, b: 0, a: 0 };

/// A grid whose every pixel tells its own coordinates.
fn coordinate_grid(width: u32, height: u32) -> PixelGrid {
    let mut samples = Vec::new();
    for y in 0..height {
        for x in 0..width {
            samples.extend_from_slice(&[x as u8, y as u8, 7, 255]);
        }
    }
    PixelGrid::new(width, height, samples).expect("a valid grid")
}

fn marks(x: u32, y: u32) -> Rgba {
    Rgba { r: x as u8, g: y as u8, b: 7, a: 255 }
}

#[test]
fn blank_sample_is_transparent_black() {
    assert_eq!(BLANK_SAMPLE, 0);
}

#[test]
fn wide_grid_gets_equal_margins_above_and_below() {
    let scaled = coordinate_grid(100, 50);
    let canvas = pad_to_canvas(&scaled, 100, 100);
    assert_eq!((canvas.width(), canvas.height()), (100, 100));
    for y in 0..100 {
        for x in 0..100 {
            let expected = if (25..75).contains(&y) { marks(x, y - 25) } else { BLANK };
            assert_eq!(canvas.pixel(x, y), expected, "at ({x}, {y})");
        }
    }
}

#[test]
fn tall_grid_gets_equal_margins_left_and_right() {
    let scaled = coordinate_grid(50, 100);
    let canvas = pad_to_canvas(&scaled, 100, 100);
    assert_eq!((canvas.width(), canvas.height()), (100, 100));
    for y in 0..100 {
        for x in 0..100 {
            let expected = if (25..75).contains(&x) { marks(x - 25, y) } else { BLANK };
            assert_eq!(canvas.pixel(x, y), expected, "at ({x}, {y})");
        }
    }
}

#[test]
fn grid_of_target_size_fills_the_canvas() {
    let scaled = coordinate_grid(100, 100);
    let canvas = pad_to_canvas(&scaled, 100, 100);
    assert_eq!((canvas.width(), canvas.height()), (100, 100));
    assert_eq!(canvas.samples(), scaled.samples());
}

#[test]
fn odd_free_space_puts_the_smaller_margin_first() {
    // Five free rows: two above, three below.
    let scaled = coordinate_grid(4, 3);
    let canvas = pad_to_canvas(&scaled, 4, 8);
    for y in 0..8 {
        for x in 0..4 {
            let expected = if (2..5).contains(&y) { marks(x, y - 2) } else { BLANK };
            assert_eq!(canvas.pixel(x, y), expected, "at ({x}, {y})");
        }
    }
    // One free column: none before, one after.
    let scaled = coordinate_grid(3, 2);
    let canvas = pad_to_canvas(&scaled, 4, 2);
    for y in 0..2 {
        for x in 0..4 {
            let expected = if x < 3 { marks(x, y) } else { BLANK };
            assert_eq!(canvas.pixel(x, y), expected, "at ({x}, {y})");
        }
    }
}

#[test]
fn grid_smaller_on_both_axes_is_centred_horizontally_at_the_top() {
    let scaled = coordinate_grid(2, 2);
    let canvas = pad_to_canvas(&scaled, 6, 6);
    for y in 0..6 {
        for x in 0..6 {
            let expected = if (2..4).contains(&x) && y < 2 { marks(x - 2, y) } else { BLANK };
            assert_eq!(canvas.pixel(x, y), expected, "at ({x}, {y})");
        }
    }
}

#[test]
fn canvas_always_has_the_target_size() {
    for (w, h, tw, th) in [(1, 1, 1, 1), (1, 1, 9, 1), (1, 1, 1, 9), (3, 5, 3, 11), (7, 2, 8, 2)] {
        let canvas = pad_to_canvas(&coordinate_grid(w, h), tw, th);
        assert_eq!((canvas.width(), canvas.height()), (tw, th));
        assert_eq!(canvas.samples().len(), (4 * tw * th) as usize);
    }
}

#[test]
fn samples_outside_the_copy_are_blank() {
    let scaled = coordinate_grid(5, 2);
    let canvas = pad_to_canvas(&scaled, 5, 5);
    let samples = canvas.samples();
    // One blank row above, two below.
    assert!(samples[..4 * 5].iter().all(|&s| s == BLANK_SAMPLE));
    assert_eq!(&samples[4 * 5..4 * 5 * 3], &scaled.samples()[..]);
    assert!(samples[4 * 5 * 3..].iter().all(|&s| s == BLANK_SAMPLE));
}

//! Letterboxing: a scaled raster centred on a transparent canvas of the target
//! size.

use crate::grid::{
    allocatable, lemma_index_in_bounds, valid_dimension, PixelGrid, Raster, MAX_DIMENSION,
};
use vstd::arithmetic::div_mod::lemma_fundamental_div_mod_converse;
use vstd::prelude::*;

verus! {

/// A grid of the target's size, onto which a scaled picture is copied.
pub type Canvas = PixelGrid;

/// The value of every sample of a canvas before anything is copied onto it:
/// transparent black.
pub const BLANK_SAMPLE: u8 = 0;

/// The margin on either side of `size` pixels centred in `target` pixels: half
/// of what is left over, rounded down.
pub open spec fn margin(size: int, target: int) -> int
    recommends
        size <= target,
{
    (target - size) / 2
}

/// The column of the canvas at which the left edge of the raster lands: the
/// horizontal margin where the raster is narrower than the canvas, else 0.
pub open spec fn offset_x(width: int, target_w: int) -> int {
    if width < target_w {
        margin(width, target_w)
    } else {
        0
    }
}

/// The row of the canvas at which the top edge of the raster lands: the
/// vertical margin where the raster is as wide as the canvas and shorter than
/// it, else 0.
pub open spec fn offset_y(width: int, height: int, target_w: int, target_h: int) -> int {
    if width < target_w {
        0
    } else if height < target_h {
        margin(height, target_h)
    } else {
        0
    }
}

/// Whether the pixel of the canvas at column `x`, row `y` lies under the copy
/// of `src`.
pub open spec fn covered(src: Raster, target_w: int, target_h: int, x: int, y: int) -> bool {
    let ox = offset_x(src.width as int, target_w);
    let oy = offset_y(src.width as int, src.height as int, target_w, target_h);
    ox <= x < ox + src.width && oy <= y < oy + src.height
}

/// Channel `c` of the canvas pixel at column `x`, row `y`: that of the pixel of
/// `src` copied there, or blank where none is.
pub open spec fn letterbox_sample(
    src: Raster,
    target_w: int,
    target_h: int,
    x: int,
    y: int,
    c: int,
) -> u8 {
    if covered(src, target_w, target_h, x, y) {
        src.sample(
            x - offset_x(src.width as int, target_w),
            y - offset_y(src.width as int, src.height as int, target_w, target_h),
            c,
        )
    } else {
        BLANK_SAMPLE
    }
}

/// The sample at place `i` of the canvas buffer.
pub open spec fn canvas_sample(src: Raster, target_w: int, target_h: int, i: int) -> u8 {
    letterbox_sample(src, target_w, target_h, (i / 4) % target_w, (i / 4) / target_w, i % 4)
}

/// The canvas of `target_w` by `target_h` pixels with `src` copied onto it at
/// its offset, blank elsewhere.
pub open spec fn letterboxed(src: Raster, target_w: int, target_h: int) -> Raster {
    Raster {
        width: target_w as nat,
        height: target_h as nat,
        samples: Seq::new(
            (4 * target_w * target_h) as nat,
            |i: int| canvas_sample(src, target_w, target_h, i),
        ),
    }
}

/// The copy is centred: the margin after it is the margin before it, or one
/// pixel more where the free space is odd.
pub proof fn lemma_margins_balanced(size: int, target: int)
    requires
        0 <= size <= target,
    ensures
        0 <= margin(size, target),
        margin(size, target) <= target - size - margin(size, target) <= margin(size, target) + 1,
{
}

/// The place of a sample in the canvas buffer determines its pixel and channel.
proof fn lemma_place(target_w: int, x: int, y: int, c: int)
    requires
        0 <= x < target_w,
        0 <= y,
        0 <= c < 4,
    ensures
        ((4 * (y * target_w + x) + c) / 4) % target_w == x,
        ((4 * (y * target_w + x) + c) / 4) / target_w == y,
        (4 * (y * target_w + x) + c) % 4 == c,
{
    let p = y * target_w + x;
    assert((4 * p + c) / 4 == p);
    lemma_fundamental_div_mod_converse(p, target_w, y, x);
}

/// The canvas has exactly the target's dimensions; each of its pixels under the
/// copy equals the pixel of the source that was copied there, and every sample
/// outside the copy is blank.
pub proof fn lemma_letterboxed_samples(
    src: Raster,
    target_w: int,
    target_h: int,
    x: int,
    y: int,
    c: int,
)
    requires
        1 <= target_w <= MAX_DIMENSION,
        1 <= target_h <= MAX_DIMENSION,
        0 <= x < target_w,
        0 <= y < target_h,
        0 <= c < 4,
    ensures
        letterboxed(src, target_w, target_h).wf(),
        letterboxed(src, target_w, target_h).width == target_w,
        letterboxed(src, target_w, target_h).height == target_h,
        letterboxed(src, target_w, target_h).sample(x, y, c) == letterbox_sample(
            src,
            target_w,
            target_h,
            x,
            y,
            c,
        ),
        !covered(src, target_w, target_h, x, y) ==> letterboxed(src, target_w, target_h).sample(
            x,
            y,
            c,
        ) == BLANK_SAMPLE,
{
    let canvas = letterboxed(src, target_w, target_h);
    assert(0 <= 4 * target_w * target_h) by (nonlinear_arith)
        requires
            1 <= target_w,
            1 <= target_h,
    ;
    lemma_index_in_bounds(canvas, x, y, c);
    lemma_place(target_w, x, y, c);
}

/// Copies `scaled` onto a new transparent canvas of exactly `target_w` by
/// `target_h` pixels. A grid narrower than the canvas is centred
/// horizontally, at the top; one as wide as the canvas and shorter is centred
/// vertically; one that fills the canvas is copied as it is. The margin before
/// the copy is half the free space, rounded down.
pub fn pad_to_canvas(scaled: &PixelGrid, target_w: u32, target_h: u32) -> (out: Canvas)
    requires
        scaled.wf(),
        valid_dimension(target_w),
        valid_dimension(target_h),
        scaled@.width <= target_w,
        scaled@.height <= target_h,
        allocatable(4 * target_w * target_h),
    ensures
        out.wf(),
        out@ == letterboxed(scaled@, target_w as int, target_h as int),
{
    let width: u32 = scaled.width();
    let height: u32 = scaled.height();
    let ox: u32 = if width < target_w {
        (target_w - width) / 2
    } else {
        0
    };
    let oy: u32 = if width < target_w {
        0
    } else if height < target_h {
        (target_h - height) / 2
    } else {
        0
    };
    let source = scaled.samples();
    let ghost tw = target_w as int;
    let ghost th = target_h as int;
    let mut samples: Vec<u8> = Vec::new();
    let mut y: u32 = 0;
    while y < target_h
        invariant
            scaled.wf(),
            width == scaled@.width,
            height == scaled@.height,
            source@ == scaled@.samples,
            tw == target_w,
            th == target_h,
            1 <= tw,
            ox == offset_x(width as int, tw),
            oy == offset_y(width as int, height as int, tw, th),
            y <= target_h,
            samples@.len() == 4 * (y * tw),
            forall|i: int|
                0 <= i < samples@.len() ==> samples@[i] == #[trigger] canvas_sample(
                    scaled@,
                    tw,
                    th,
                    i,
                ),
        decreases target_h - y,
    {
        let mut x: u32 = 0;
        while x < target_w
            invariant
                scaled.wf(),
                width == scaled@.width,
                height == scaled@.height,
                source@ == scaled@.samples,
                tw == target_w,
                th == target_h,
                1 <= tw,
                ox == offset_x(width as int, tw),
                oy == offset_y(width as int, height as int, tw, th),
                y < target_h,
                x <= target_w,
                samples@.len() == 4 * (y * tw + x),
                forall|i: int|
                    0 <= i < samples@.len() ==> samples@[i] == #[trigger] canvas_sample(
                        scaled@,
                        tw,
                        th,
                        i,
                    ),
            decreases target_w - x,
        {
            let ghost before = samples@;
            proof {
                lemma_place(tw, x as int, y as int, 0);
                lemma_place(tw, x as int, y as int, 1);
                lemma_place(tw, x as int, y as int, 2);
                lemma_place(tw, x as int, y as int, 3);
            }
            if ox <= x && x - ox < width && oy <= y && y - oy < height {
                let sx: u32 = x - ox;
                let sy: u32 = y - oy;
                proof {
                    lemma_index_in_bounds(scaled@, sx as int, sy as int, 3);
                    assert(0 <= sy * width) by (nonlinear_arith);
                    assert(source.len() == source@.len());
                }
                let base: usize = 4 * ((sy as usize) * (width as usize) + (sx as usize));
                samples.push(source[base]);
                samples.push(source[base + 1]);
                samples.push(source[base + 2]);
                samples.push(source[base + 3]);
            } else {
                samples.push(BLANK_SAMPLE);
                samples.push(BLANK_SAMPLE);
                samples.push(BLANK_SAMPLE);
                samples.push(BLANK_SAMPLE);
            }
            proof {
                let at = before.len() as int;
                assert(at == 4 * (y * tw + x));
                assert(samples@.len() == at + 4);
                assert forall|i: int| 0 <= i < samples@.len() implies samples@[i]
                    == #[trigger] canvas_sample(scaled@, tw, th, i) by {
                    if i < at {
                        assert(samples@[i] == before[i]);
                    } else {
                        assert(i == at || i == at + 1 || i == at + 2 || i == at + 3);
                    }
                }
            }
            x = x + 1;
        }
        proof {
            assert((y + 1) * tw == y * tw + tw) by (nonlinear_arith);
        }
        y = y + 1;
    }
    proof {
        assert(4 * (th * tw) == 4 * tw * th) by (nonlinear_arith);
        assert(samples@ =~= letterboxed(scaled@, tw, th).samples);
    }
    PixelGrid::from_parts(target_w, target_h, samples)
}

} // verus!

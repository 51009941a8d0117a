//! Scaling a raster to fit a target, aspect ratio preserved.
//!
//! The scale factor is the smaller of `target_w / width` and
//! `target_h / height`; both dimensions are multiplied by it and rounded to the
//! nearest pixel. The dimensions are computed in exact integer arithmetic; the
//! samples are resampled by the `image` crate.

use crate::codec::{gaussian_resampled, resample_gaussian};
use crate::grid::{allocatable, valid_dimension, PixelGrid, Raster, MAX_DIMENSION};
use vstd::arithmetic::div_mod::{
    lemma_div_is_ordered, lemma_div_pos_is_pos, lemma_fundamental_div_mod,
    lemma_fundamental_div_mod_converse, lemma_mod_bound,
};
use vstd::prelude::*;

verus! {

/// `a / b` rounded to the nearest integer, a half rounded up: the quotient, and
/// one more where the remainder is at least half of `b`.
pub open spec fn div_round(a: int, b: int) -> int
    recommends
        0 <= a,
        0 < b,
{
    a / b + if 2 * (a % b) >= b {
        1int
    } else {
        0int
    }
}

/// Whether the width is the binding axis: `target_w / width` is the smaller
/// scale factor (or both are equal).
pub open spec fn width_binds(width: int, height: int, target_w: int, target_h: int) -> bool {
    target_w * height <= target_h * width
}

/// `n`, but never less than one pixel.
pub open spec fn at_least_one(n: int) -> int {
    if n < 1 {
        1
    } else {
        n
    }
}

/// The width of a `width` by `height` raster scaled to fit `target_w` by
/// `target_h`.
pub open spec fn scaled_width(width: int, height: int, target_w: int, target_h: int) -> int
    recommends
        1 <= width,
        1 <= height,
        1 <= target_w,
        1 <= target_h,
{
    if width_binds(width, height, target_w, target_h) {
        target_w
    } else {
        at_least_one(div_round(width * target_h, height))
    }
}

/// The height of a `width` by `height` raster scaled to fit `target_w` by
/// `target_h`.
pub open spec fn scaled_height(width: int, height: int, target_w: int, target_h: int) -> int
    recommends
        1 <= width,
        1 <= height,
        1 <= target_w,
        1 <= target_h,
{
    if width_binds(width, height, target_w, target_h) {
        at_least_one(div_round(height * target_w, width))
    } else {
        target_h
    }
}

/// `div_round(a, b)` is the floor of `a / b + 1 / 2`.
pub proof fn lemma_div_round_floor(a: int, b: int)
    requires
        0 <= a,
        0 < b,
    ensures
        div_round(a, b) == (2 * a + b) / (2 * b),
{
    let q = a / b;
    let r = a % b;
    lemma_fundamental_div_mod(a, b);
    lemma_mod_bound(a, b);
    if 2 * r >= b {
        assert(2 * a + b == (q + 1) * (2 * b) + (2 * r - b)) by (nonlinear_arith)
            requires
                a == b * q + r,
        ;
        lemma_fundamental_div_mod_converse(2 * a + b, 2 * b, q + 1, 2 * r - b);
    } else {
        assert(2 * a + b == q * (2 * b) + (2 * r + b)) by (nonlinear_arith)
            requires
                a == b * q + r,
        ;
        lemma_fundamental_div_mod_converse(2 * a + b, 2 * b, q, 2 * r + b);
    }
}

/// `div_round(a, b)` is a nearest integer to `a / b`: it is off by at most a
/// half.
pub proof fn lemma_div_round_is_nearest(a: int, b: int)
    requires
        0 <= a,
        0 < b,
    ensures
        0 <= div_round(a, b),
        -b <= 2 * (div_round(a, b) * b - a) <= b,
{
    let q = a / b;
    let r = a % b;
    lemma_fundamental_div_mod(a, b);
    lemma_mod_bound(a, b);
    lemma_div_pos_is_pos(a, b);
    if 2 * r >= b {
        assert((q + 1) * b - a == b - r) by (nonlinear_arith)
            requires
                a == b * q + r,
        ;
    } else {
        assert(q * b - a == -r) by (nonlinear_arith)
            requires
                a == b * q + r,
        ;
    }
}

/// Scaling keeps the aspect ratio as far as whole pixels allow: unless it had
/// to be raised to one pixel, the free axis is within half a pixel of its exact
/// share.
pub proof fn lemma_scaled_keeps_aspect_ratio(width: int, height: int, target_w: int, target_h: int)
    requires
        1 <= width,
        1 <= height,
        1 <= target_w,
        1 <= target_h,
    ensures
        ({
            let w = scaled_width(width, height, target_w, target_h);
            let h = scaled_height(width, height, target_w, target_h);
            if width_binds(width, height, target_w, target_h) {
                w == target_w && (h == 1 || -width <= 2 * (h * width - height * target_w) <= width)
            } else {
                h == target_h && (w == 1 || -height <= 2 * (w * height - width * target_h)
                    <= height)
            }
        }),
{
    if width_binds(width, height, target_w, target_h) {
        assert(0 <= height * target_w) by (nonlinear_arith)
            requires
                1 <= height,
                1 <= target_w,
        ;
        lemma_div_round_is_nearest(height * target_w, width);
    } else {
        assert(0 <= width * target_h) by (nonlinear_arith)
            requires
                1 <= width,
                1 <= target_h,
        ;
        lemma_div_round_is_nearest(width * target_h, height);
    }
}

/// Rounding does not push a quotient past an integer bound: if `a / b` is at
/// most `t`, so is `div_round(a, b)`.
pub proof fn lemma_div_round_bounded(a: int, b: int, t: int)
    requires
        0 <= a,
        0 < b,
        a <= t * b,
    ensures
        div_round(a, b) <= t,
{
    lemma_div_round_floor(a, b);
    assert(2 * (t * b) + b == t * (2 * b) + b) by (nonlinear_arith);
    lemma_fundamental_div_mod_converse(t * (2 * b) + b, 2 * b, t, b);
    lemma_div_is_ordered(2 * a + b, t * (2 * b) + b, 2 * b);
}

/// A raster scaled to fit lies within the target on both axes, meets it exactly
/// on at least one of them, and keeps at least one pixel on the other.
pub proof fn lemma_scaled_fits(width: int, height: int, target_w: int, target_h: int)
    requires
        1 <= width,
        1 <= height,
        1 <= target_w,
        1 <= target_h,
    ensures
        1 <= scaled_width(width, height, target_w, target_h) <= target_w,
        1 <= scaled_height(width, height, target_w, target_h) <= target_h,
        scaled_width(width, height, target_w, target_h) == target_w || scaled_height(
            width,
            height,
            target_w,
            target_h,
        ) == target_h,
{
    if width_binds(width, height, target_w, target_h) {
        assert(0 <= height * target_w) by (nonlinear_arith)
            requires
                1 <= height,
                1 <= target_w,
        ;
        assert(height * target_w <= target_h * width) by (nonlinear_arith)
            requires
                target_w * height <= target_h * width,
        ;
        lemma_div_round_bounded(height * target_w, width, target_h);
    } else {
        assert(0 <= width * target_h) by (nonlinear_arith)
            requires
                1 <= width,
                1 <= target_h,
        ;
        assert(width * target_h <= target_w * height) by (nonlinear_arith)
            requires
                target_w * height > target_h * width,
        ;
        lemma_div_round_bounded(width * target_h, height, target_w);
    }
}

/// `a / b` rounded to the nearest integer, a half rounded up.
fn round_quotient(a: u64, b: u64) -> (q: u64)
    requires
        1 <= b <= u32::MAX,
        a < u64::MAX,
    ensures
        q == div_round(a as int, b as int),
{
    let q: u64 = a / b;
    let r: u64 = a % b;
    proof {
        lemma_fundamental_div_mod(a as int, b as int);
        lemma_mod_bound(a as int, b as int);
        assert(q <= a) by (nonlinear_arith)
            requires
                a == b * q + r,
                1 <= b,
                0 <= r,
                0 <= q,
        ;
    }
    if 2 * r >= b {
        q + 1
    } else {
        q
    }
}

/// The dimensions of a `width` by `height` raster scaled to fit within
/// `target_w` by `target_h`: the scale factor is the smaller of
/// `target_w / width` and `target_h / height`, and each dimension is rounded to
/// the nearest pixel, but to no less than one.
pub fn scaled_dimensions(width: u32, height: u32, target_w: u32, target_h: u32) -> (out: (
    u32,
    u32,
))
    requires
        1 <= width,
        1 <= height,
        1 <= target_w,
        1 <= target_h,
    ensures
        out.0 == scaled_width(width as int, height as int, target_w as int, target_h as int),
        out.1 == scaled_height(width as int, height as int, target_w as int, target_h as int),
        1 <= out.0 <= target_w,
        1 <= out.1 <= target_h,
        out.0 == target_w || out.1 == target_h,
{
    let w: u64 = width as u64;
    let h: u64 = height as u64;
    let tw: u64 = target_w as u64;
    let th: u64 = target_h as u64;
    proof {
        lemma_scaled_fits(width as int, height as int, target_w as int, target_h as int);
        assert(tw * h <= 0xffff_ffff * 0xffff_ffff && th * w <= 0xffff_ffff * 0xffff_ffff)
            by (nonlinear_arith)
            requires
                w <= 0xffff_ffff,
                h <= 0xffff_ffff,
                tw <= 0xffff_ffff,
                th <= 0xffff_ffff,
        ;
        assert(h * tw == tw * h && w * th == th * w) by (nonlinear_arith);
    }
    if tw * h <= th * w {
        let rounded: u64 = round_quotient(h * tw, w);
        let scaled_h: u64 = if rounded < 1 {
            1
        } else {
            rounded
        };
        (target_w, scaled_h as u32)
    } else {
        let rounded: u64 = round_quotient(w * th, h);
        let scaled_w: u64 = if rounded < 1 {
            1
        } else {
            rounded
        };
        (scaled_w as u32, target_h)
    }
}

/// Whether this machine can address the rasters that scaling to `target_h`
/// rows goes through, whatever the source: the largest is `MAX_DIMENSION`
/// pixels wide and `target_h` pixels high, with four 32-bit floats per pixel.
/// It always can where addresses have 64 bits.
pub open spec fn workspace_addressable(target_h: u32) -> bool {
    allocatable(16 * MAX_DIMENSION * target_h)
}

/// The raster `src` scaled to fit within `target_w` by `target_h`: its
/// dimensions are the scaled dimensions, its samples those of the Gaussian
/// resampling of `src` to these dimensions.
pub open spec fn scaled_to_fit(src: Raster, target_w: u32, target_h: u32) -> Raster {
    let w = scaled_width(src.width as int, src.height as int, target_w as int, target_h as int);
    let h = scaled_height(src.width as int, src.height as int, target_w as int, target_h as int);
    Raster {
        width: w as nat,
        height: h as nat,
        samples: gaussian_resampled(
            src.samples,
            src.width as u32,
            src.height as u32,
            w as u32,
            h as u32,
        ),
    }
}

/// Scales `grid` to fit within `target_w` by `target_h`, keeping its aspect
/// ratio, with a Gaussian filter. A grid that already fits is scaled up by the
/// same rule. The result meets the target on at least one axis and does not
/// exceed it on the other.
pub fn scale_to_fit(grid: &PixelGrid, target_w: u32, target_h: u32) -> (out: PixelGrid)
    requires
        grid.wf(),
        valid_dimension(target_w),
        valid_dimension(target_h),
        workspace_addressable(target_h),
    ensures
        out.wf(),
        out@ == scaled_to_fit(grid@, target_w, target_h),
        out@.width <= target_w,
        out@.height <= target_h,
        out@.width == target_w || out@.height == target_h,
{
    let (new_width, new_height) = scaled_dimensions(
        grid.width(),
        grid.height(),
        target_w,
        target_h,
    );
    proof {
        let w = grid@.width as int;
        assert(16 * w * new_height <= 16 * 65535 * target_h && 4 * new_width * new_height <= 16
            * 65535 * target_h) by (nonlinear_arith)
            requires
                1 <= w <= 65535,
                1 <= new_width <= 65535,
                1 <= new_height <= target_h,
        ;
    }
    let samples = resample_gaussian(
        grid.samples().as_slice(),
        grid.width(),
        grid.height(),
        new_width,
        new_height,
    );
    PixelGrid::from_parts(new_width, new_height, samples)
}

} // verus!

//! The thumbnailer: decode, scale to fit, pad to the canvas, encode.

use crate::canvas::{letterboxed, pad_to_canvas, Canvas};
use crate::codec::{jpeg_decode, jpeg_decoded, jpeg_encode, jpeg_encoded};
use crate::fetch::ImageBuffer;
use crate::grid::{valid_dimension, PixelGrid, Raster, MAX_DIMENSION};
use crate::scale::{scale_to_fit, scaled_to_fit, workspace_addressable};
use vstd::prelude::*;

verus! {

/// The quality at which thumbnails are encoded, on the encoder's scale of 1
/// (worst) to 100 (best).
pub const THUMBNAIL_QUALITY: u8 = 85;

/// Why no thumbnail was made.
#[derive(Clone, Copy, Debug, PartialEq, Eq, Structural)]
pub enum ThumbnailError {
    /// The bytes are not a picture that the decoder accepts.
    DecodeFailed,
    /// The encoder refused the canvas.
    EncodeFailed,
}

/// The raster that a decoder's answer stands for, if it is one: the dimensions
/// must be valid and the samples four per pixel.
pub open spec fn raster_of(decoded: Option<(u32, u32, Seq<u8>)>) -> Option<Raster> {
    match decoded {
        Some((width, height, samples)) => {
            let raster = Raster { width: width as nat, height: height as nat, samples };
            if raster.wf() {
                Some(raster)
            } else {
                None
            }
        },
        None => None,
    }
}

/// The raster that `bytes` decode to, if any.
pub open spec fn decoded_raster(bytes: Seq<u8>) -> Option<Raster> {
    raster_of(jpeg_decoded(bytes))
}

/// What the encoder's answer means to the caller.
pub open spec fn encoding_of(encoded: Option<Seq<u8>>) -> Result<Seq<u8>, ThumbnailError> {
    match encoded {
        Some(bytes) => Ok(bytes),
        None => Err(ThumbnailError::EncodeFailed),
    }
}

/// The encoding of `raster` at the thumbnail quality.
pub open spec fn encoded_raster(raster: Raster) -> Result<Seq<u8>, ThumbnailError> {
    encoding_of(
        jpeg_encoded(raster.samples, raster.width as u32, raster.height as u32, THUMBNAIL_QUALITY),
    )
}

/// `src` scaled to fit `target_w` by `target_h` and letterboxed on a canvas of
/// that size.
pub open spec fn fitted_and_padded(src: Raster, target_w: u32, target_h: u32) -> Raster {
    letterboxed(scaled_to_fit(src, target_w, target_h), target_w as int, target_h as int)
}

/// What `make_thumbnail` returns for `bytes` and a target: a function of these
/// three alone.
pub open spec fn thumbnail_outcome(bytes: Seq<u8>, target_w: u32, target_h: u32) -> Result<
    Seq<u8>,
    ThumbnailError,
> {
    match decoded_raster(bytes) {
        None => Err(ThumbnailError::DecodeFailed),
        Some(src) => if valid_dimension(target_w) && valid_dimension(target_h) {
            encoded_raster(fitted_and_padded(src, target_w, target_h))
        } else {
            Err(ThumbnailError::EncodeFailed)
        },
    }
}

/// Turns what the decoder answered into a grid: `DecodeFailed` where it
/// answered nothing, or something that is no raster.
pub fn grid_from_decoded(decoded: Option<(u32, u32, Vec<u8>)>) -> (out: Result<
    PixelGrid,
    ThumbnailError,
>)
    ensures
        match (decoded, out) {
            (Some((width, height, samples)), Ok(grid)) => grid.wf() && raster_of(
                Some((width, height, samples@)),
            ) == Some(grid@),
            (Some((width, height, samples)), Err(e)) => e == ThumbnailError::DecodeFailed
                && raster_of(Some((width, height, samples@))) is None,
            (None, Ok(_)) => false,
            (None, Err(e)) => e == ThumbnailError::DecodeFailed,
        },
{
    match decoded {
        Some((width, height, samples)) => match PixelGrid::new(width, height, samples) {
            Some(grid) => Ok(grid),
            None => Err(ThumbnailError::DecodeFailed),
        },
        None => Err(ThumbnailError::DecodeFailed),
    }
}

/// Decodes `buf`, a JPEG file, into a grid of pixels. Fails with
/// `DecodeFailed` where the bytes are no picture the decoder accepts.
pub fn decode(buf: &[u8]) -> (out: Result<PixelGrid, ThumbnailError>)
    ensures
        match out {
            Ok(grid) => grid.wf() && decoded_raster(buf@) == Some(grid@),
            Err(e) => e == ThumbnailError::DecodeFailed && decoded_raster(buf@) is None,
        },
{
    grid_from_decoded(jpeg_decode(buf))
}

/// Turns what the encoder answered into the caller's result: `EncodeFailed`
/// where it answered nothing.
pub fn bytes_from_encoded(encoded: Option<Vec<u8>>) -> (out: Result<ImageBuffer, ThumbnailError>)
    ensures
        match (encoded, out) {
            (Some(bytes), Ok(same)) => same@ == bytes@,
            (None, Err(e)) => e == ThumbnailError::EncodeFailed,
            _ => false,
        },
{
    match encoded {
        Some(bytes) => Ok(bytes),
        None => Err(ThumbnailError::EncodeFailed),
    }
}

/// Encodes `canvas` as a JPEG file at `THUMBNAIL_QUALITY`. Fails with
/// `EncodeFailed` where the encoder refuses.
pub fn encode(canvas: &Canvas) -> (out: Result<ImageBuffer, ThumbnailError>)
    requires
        canvas.wf(),
    ensures
        match out {
            Ok(bytes) => encoded_raster(canvas@) == Ok::<Seq<u8>, ThumbnailError>(bytes@),
            Err(e) => encoded_raster(canvas@) == Err::<Seq<u8>, ThumbnailError>(e),
        },
{
    bytes_from_encoded(
        jpeg_encode(
            canvas.samples().as_slice(),
            canvas.width(),
            canvas.height(),
            THUMBNAIL_QUALITY,
        ),
    )
}

/// Rasters that can be brought to an exact size: scaled to fit within it,
/// aspect ratio kept, then centred on a transparent canvas of that size.
pub trait ResizeImage: Sized {
    /// The raster that the value holds.
    spec fn raster(&self) -> Raster;

    /// Whether the value can be brought to `x` by `y` pixels.
    spec fn resizable_to(&self, x: u32, y: u32) -> bool;

    /// Scales the image to fit within `x` by `y` pixels and pads it to exactly
    /// that size.
    fn resize_to_exact(&self, x: u32, y: u32) -> (out: Self)
        requires
            self.resizable_to(x, y),
        ensures
            out.raster().wf(),
            out.raster() == fitted_and_padded(self.raster(), x, y),
    ;
}

impl ResizeImage for PixelGrid {
    open spec fn raster(&self) -> Raster {
        self@
    }

    /// A grid can be resized to any valid target whose working rasters this
    /// machine can address.
    open spec fn resizable_to(&self, x: u32, y: u32) -> bool {
        &&& self.wf()
        &&& valid_dimension(x)
        &&& valid_dimension(y)
        &&& workspace_addressable(y)
    }

    fn resize_to_exact(&self, x: u32, y: u32) -> (out: Self) {
        let scaled = scale_to_fit(self, x, y);
        proof {
            assert(4 * x * y <= 16 * 65535 * y) by (nonlinear_arith)
                requires
                    x <= 65535,
            ;
        }
        pad_to_canvas(&scaled, x, y)
    }
}

/// Makes the thumbnail of the JPEG file `buf`: the picture scaled to fit within
/// `target_w` by `target_h`, centred on a transparent canvas of exactly that
/// size, as a JPEG file again. The same bytes and target always give the same
/// file.
///
/// Fails with `DecodeFailed` where `buf` does not decode, and with
/// `EncodeFailed` where the canvas cannot be encoded: always for a target that
/// no JPEG can have, with a side of 0 or of more than `MAX_DIMENSION`.
pub fn make_thumbnail(buf: &[u8], target_w: u32, target_h: u32) -> (out: Result<
    ImageBuffer,
    ThumbnailError,
>)
    requires
        valid_dimension(target_h) ==> workspace_addressable(target_h),
    ensures
        match out {
            Ok(bytes) => thumbnail_outcome(buf@, target_w, target_h) == Ok::<
                Seq<u8>,
                ThumbnailError,
            >(bytes@),
            Err(e) => thumbnail_outcome(buf@, target_w, target_h) == Err::<
                Seq<u8>,
                ThumbnailError,
            >(e),
        },
{
    let grid = match decode(buf) {
        Ok(grid) => grid,
        Err(e) => {
            return Err(e);
        },
    };
    if target_w == 0 || target_w > MAX_DIMENSION || target_h == 0 || target_h > MAX_DIMENSION {
        return Err(ThumbnailError::EncodeFailed);
    }
    let canvas = grid.resize_to_exact(target_w, target_h);
    encode(&canvas)
}

} // verus!

//! The three calls into the `image` crate: JPEG decoding, Gaussian resampling
//! and JPEG encoding. Their contracts are believed, not proved; everything
//! around them is verified against those contracts.

use crate::grid::allocatable;
use vstd::prelude::*;

verus! {

/// What the `image` crate makes of `bytes` read as a JPEG file: nothing, where
/// it rejects them; else the width, the height and the RGBA samples of the
/// picture.
pub uninterp spec fn jpeg_decoded(bytes: Seq<u8>) -> Option<(u32, u32, Seq<u8>)>;

/// The samples of a `width` by `height` RGBA raster resampled to `new_width` by
/// `new_height` by the `image` crate's Gaussian filter.
pub uninterp spec fn gaussian_resampled(
    samples: Seq<u8>,
    width: u32,
    height: u32,
    new_width: u32,
    new_height: u32,
) -> Seq<u8>;

/// The JPEG file that the `image` crate's encoder writes at `quality` for a
/// `width` by `height` RGBA raster, the alpha channel dropped; nothing, where
/// the encoder refuses.
pub uninterp spec fn jpeg_encoded(samples: Seq<u8>, width: u32, height: u32, quality: u8) -> Option<
    Seq<u8>,
>;

/// Calls `image::load_from_memory_with_format` for the JPEG format and converts
/// the picture to RGBA with `DynamicImage::into_rgba8`.
///
/// Believed: the outcome depends on `bytes` alone. Nothing is claimed of which
/// inputs decode, nor of the dimensions or the number of samples that come back.
#[verifier::external_body]
pub(crate) fn jpeg_decode(bytes: &[u8]) -> (out: Option<(u32, u32, Vec<u8>)>)
    ensures
        match out {
            Some((width, height, samples)) => jpeg_decoded(bytes@) == Some(
                (width, height, samples@),
            ),
            None => jpeg_decoded(bytes@) is None,
        },
{
    match image::load_from_memory_with_format(bytes, image::ImageFormat::Jpeg) {
        Ok(picture) => {
            let rgba = picture.into_rgba8();
            Some((rgba.width(), rgba.height(), rgba.into_raw()))
        },
        Err(_) => None,
    }
}

/// Calls `image::imageops::resize` with `FilterType::Gaussian` on the raster
/// that `samples` holds.
///
/// Believed: the result depends on the arguments alone, and it holds exactly
/// four samples for each of the `new_width * new_height` pixels asked for. The
/// `requires` keeps out what makes the call panic: a buffer that does not hold
/// the raster, and sizes whose intermediate raster (four `f32` per pixel,
/// `width` by `new_height`) or result cannot be allocated.
#[verifier::external_body]
pub(crate) fn resample_gaussian(
    samples: &[u8],
    width: u32,
    height: u32,
    new_width: u32,
    new_height: u32,
) -> (out: Vec<u8>)
    requires
        1 <= width,
        1 <= height,
        1 <= new_width,
        1 <= new_height,
        samples@.len() == 4 * width * height,
        allocatable(16 * width * new_height),
        allocatable(4 * new_width * new_height),
    ensures
        out@ == gaussian_resampled(samples@, width, height, new_width, new_height),
        out@.len() == 4 * new_width * new_height,
{
    match image::ImageBuffer::<image::Rgba<u8>, &[u8]>::from_raw(width, height, samples) {
        Some(source) => image::imageops::resize(
            &source,
            new_width,
            new_height,
            image::imageops::FilterType::Gaussian,
        ).into_raw(),
        None => Vec::new(),
    }
}

/// Calls `DynamicImage::write_with_encoder` with a
/// `JpegEncoder::new_with_quality` on the RGBA raster that `samples` holds.
///
/// Believed: the outcome depends on the arguments alone. Nothing is claimed of
/// which rasters the encoder accepts.
#[verifier::external_body]
pub(crate) fn jpeg_encode(samples: &[u8], width: u32, height: u32, quality: u8) -> (out: Option<
    Vec<u8>,
>)
    requires
        samples@.len() == 4 * width * height,
        1 <= quality <= 100,
    ensures
        match out {
            Some(bytes) => jpeg_encoded(samples@, width, height, quality) == Some(bytes@),
            None => jpeg_encoded(samples@, width, height, quality) is None,
        },
{
    let raster = image::RgbaImage::from_raw(width, height, samples.to_vec())?;
    let mut bytes = Vec::new();
    let encoder = image::codecs::jpeg::JpegEncoder::new_with_quality(&mut bytes, quality);
    match image::DynamicImage::ImageRgba8(raster).write_with_encoder(encoder) {
        Ok(()) => Some(bytes),
        Err(_) => None,
    }
}

} // verus!

//! What the proxy answers once the fetch is over: the fetched bytes as they
//! are, or their thumbnail.

use crate::fetch::{FetchError, ImageBuffer};
use crate::request::RequestError;
use crate::thumbnail::{make_thumbnail, thumbnail_outcome, ThumbnailError};
use vstd::prelude::*;

verus! {

/// The width of a preview, in pixels.
pub const PREVIEW_WIDTH: u32 = 100;

/// The height of a preview, in pixels.
pub const PREVIEW_HEIGHT: u32 = 100;

/// What is asked of the proxy for a picture.
#[derive(Clone, Copy, Debug, PartialEq, Eq, Structural)]
pub enum Mode {
    /// The picture as it was fetched.
    Original,
    /// Its thumbnail of `PREVIEW_WIDTH` by `PREVIEW_HEIGHT` pixels.
    Preview,
}

/// Why the proxy has no picture to answer with.
#[derive(Clone, Copy, Debug, PartialEq, Eq, Structural)]
pub enum ProxyError {
    /// The picture could not be fetched.
    Fetch(FetchError),
    /// The picture was fetched, but no thumbnail could be made of it.
    Thumbnail(ThumbnailError),
}

/// The proxy's answer to a request in `mode` whose fetch ended in `fetched`.
pub open spec fn answer(mode: Mode, fetched: Result<Seq<u8>, FetchError>) -> Result<
    Seq<u8>,
    ProxyError,
> {
    match fetched {
        Err(e) => Err(ProxyError::Fetch(e)),
        Ok(bytes) => match mode {
            Mode::Original => Ok(bytes),
            Mode::Preview => match thumbnail_outcome(bytes, PREVIEW_WIDTH, PREVIEW_HEIGHT) {
                Ok(thumbnail) => Ok(thumbnail),
                Err(e) => Err(ProxyError::Thumbnail(e)),
            },
        },
    }
}

/// Loads the picture for a request in `mode` whose fetch has ended in
/// `fetched`: a failed fetch is passed on as it is; fetched bytes are passed on
/// unchanged in `Original` mode and turned into their thumbnail in `Preview`
/// mode. Either the whole picture is there or an error is: never a part of one.
pub fn load(mode: Mode, fetched: Result<ImageBuffer, FetchError>) -> (out: Result<
    ImageBuffer,
    ProxyError,
>)
    ensures
        match (fetched, out) {
            (Ok(bytes), Ok(body)) => answer(mode, Ok(bytes@)) == Ok::<Seq<u8>, ProxyError>(body@),
            (Ok(bytes), Err(e)) => answer(mode, Ok(bytes@)) == Err::<Seq<u8>, ProxyError>(e),
            (Err(failure), Ok(_)) => false,
            (Err(failure), Err(e)) => e == ProxyError::Fetch(failure),
        },
{
    match fetched {
        Err(e) => Err(ProxyError::Fetch(e)),
        Ok(bytes) => match mode {
            Mode::Original => Ok(bytes),
            Mode::Preview => match make_thumbnail(bytes.as_slice(), PREVIEW_WIDTH, PREVIEW_HEIGHT) {
                Ok(thumbnail) => Ok(thumbnail),
                Err(e) => Err(ProxyError::Thumbnail(e)),
            },
        },
    }
}

/// The media type of every answer: originals are passed on as the JPEG files
/// they are taken to be, and thumbnails are JPEG files.
pub fn content_type(mode: Mode) -> (media_type: &'static str)
    ensures
        media_type@ == "image/jpeg"@,
{
    "image/jpeg"
}

/// The HTTP status with which a request that cannot be served is answered: 400
/// (bad request) for one that names no picture or does not parse.
pub open spec fn request_failure_status(error: RequestError) -> u16 {
    400
}

/// The HTTP status with which a request whose picture could not be had is
/// answered: 502 (bad gateway) where the fetch failed or brought no picture,
/// 500 (internal server error) where the thumbnail could not be encoded.
pub open spec fn proxy_failure_status(error: ProxyError) -> u16 {
    match error {
        ProxyError::Fetch(_) => 502,
        ProxyError::Thumbnail(ThumbnailError::DecodeFailed) => 502,
        ProxyError::Thumbnail(ThumbnailError::EncodeFailed) => 500,
    }
}

/// Whether `status` tells of a failure: a client error or a server error.
pub open spec fn is_failure_status(status: u16) -> bool {
    400 <= status < 600
}

/// The HTTP status for a request that cannot be served as it stands.
pub fn status_of_request_error(error: RequestError) -> (status: u16)
    ensures
        status == request_failure_status(error),
        is_failure_status(status),
{
    400
}

/// The HTTP status for a request whose picture could not be fetched or turned
/// into a thumbnail. Every error is answered with a failure status.
pub fn status_of_proxy_error(error: ProxyError) -> (status: u16)
    ensures
        status == proxy_failure_status(error),
        is_failure_status(status),
{
    match error {
        ProxyError::Fetch(_) => 502,
        ProxyError::Thumbnail(ThumbnailError::DecodeFailed) => 502,
        ProxyError::Thumbnail(ThumbnailError::EncodeFailed) => 500,
    }
}

} // verus!

//! The calls into the `image` engine and into std's UTF-8 check that the
//! library relies on, each with the contract it is taken at.
use vstd::prelude::*;
use vstd::utf8::decode_utf8;
use vstd::utf8::valid_utf8;

use crate::wire::EngineFailure;

verus! {

#[verifier::external_type_specification]
#[verifier::external_body]
pub struct ExDynamicImage(image::DynamicImage);

#[verifier::external_type_specification]
#[verifier::external_body]
pub struct ExEngineError(image::ImageError);

/// The image that a horizontal flip makes of `img`: the engine's flip
/// depends on the image alone.
pub uninterp spec fn mirrored_of(img: image::DynamicImage) -> image::DynamicImage;

/// Which kind of failure the engine error `e` is.
pub uninterp spec fn failure_kind(e: image::ImageError) -> EngineFailure;

/// Relies on `std::str::from_utf8`, which succeeds exactly on well-formed
/// UTF-8 and then yields the characters that the bytes encode.
#[verifier::external_body]
pub(crate) fn utf8_text(b: &[u8]) -> (r: Option<&str>)
    ensures
        r is Some <==> valid_utf8(b@),
        r matches Some(s) ==> s@ == decode_utf8(b@),
{
    std::str::from_utf8(b).ok()
}

/// Relies on `image::open`: decodes the file at `path`, with the format
/// guessed from its contents and extension. What comes back depends on the
/// file system, so nothing is stated of it.
#[verifier::external_body]
pub(crate) fn engine_open(path: &str) -> (r: Result<image::DynamicImage, image::ImageError>) {
    image::open(path)
}

/// Relies on `image::DynamicImage::save`: encodes `img` to the file at
/// `path` in the format its extension names. Its outcome depends on the file
/// system, so nothing is stated of it.
#[verifier::external_body]
pub(crate) fn engine_save(img: &image::DynamicImage, path: &str) -> (r: Result<(), image::ImageError>) {
    img.save(path)
}

/// Relies on `image::imageops::flip_horizontal_in_place`: swaps the pixel
/// columns of `img` in place.
#[verifier::external_body]
pub(crate) fn engine_flip_horizontal(img: &mut image::DynamicImage)
    ensures
        *final(img) == mirrored_of(*old(img)),
{
    image::imageops::flip_horizontal_in_place(img)
}

/// Relies on the variants of `image::ImageError`: names the one that `e` is.
#[verifier::external_body]
pub(crate) fn engine_failure(e: &image::ImageError) -> (r: EngineFailure)
    ensures
        r == failure_kind(*e),
{
    match e {
        image::ImageError::Decoding(_) => EngineFailure::Decoding,
        image::ImageError::Encoding(_) => EngineFailure::Encoding,
        image::ImageError::Parameter(_) => EngineFailure::Parameter,
        image::ImageError::Limits(_) => EngineFailure::Limits,
        image::ImageError::Unsupported(_) => EngineFailure::Unsupported,
        image::ImageError::IoError(_) => EngineFailure::Io,
    }
}

} // verus!

//! The provider's image routines, on the values that cross the boundary:
//! a path argument is `None` for a null pointer and otherwise the bytes
//! before its terminator; an image argument is `None` for a null handle.
use vstd::prelude::*;

use crate::engine::engine_failure;
use crate::engine::engine_flip_horizontal;
use crate::engine::engine_open;
use crate::engine::engine_save;
use crate::engine::failure_kind;
use crate::engine::mirrored_of;
use crate::path::path_read;
use crate::path::read_path;
use crate::wire::engine_status;
use crate::wire::ImageErrorCode;

verus! {

/// The status that reports the engine error `e`: the code of its kind, with
/// a resource limit under `Unsupported`. It is never `NoError`.
pub fn engine_error_code(e: &image::ImageError) -> (r: ImageErrorCode)
    ensures
        r == engine_status(failure_kind(*e)),
        r != ImageErrorCode::NoError,
{
    ImageErrorCode::from_engine(engine_failure(e))
}

/// Turns the engine's answer to a decode into the provider's: the decoded
/// image itself on success, the matching status on failure.
pub fn open_outcome(res: Result<image::DynamicImage, image::ImageError>) -> (r: Result<
    image::DynamicImage,
    ImageErrorCode,
>)
    ensures
        res matches Ok(img) ==> r == Ok::<image::DynamicImage, ImageErrorCode>(img),
        res matches Err(e) ==> r == Err::<image::DynamicImage, ImageErrorCode>(
            engine_status(failure_kind(e)),
        ),
        res is Err ==> (r matches Err(c) && c != ImageErrorCode::NoError),
{
    match res {
        Ok(img) => Ok(img),
        Err(e) => Err(engine_error_code(&e)),
    }
}

/// Turns the engine's answer to an encode into the status on the wire:
/// `NoError` exactly on success.
pub fn save_outcome(res: Result<(), image::ImageError>) -> (r: ImageErrorCode)
    ensures
        r == ImageErrorCode::NoError <==> res is Ok,
        res matches Err(e) ==> r == engine_status(failure_kind(e)),
{
    match res {
        Ok(()) => ImageErrorCode::NoError,
        Err(e) => engine_error_code(&e),
    }
}

/// Decodes the image file named by `path`. `out_given` says whether the
/// caller passed somewhere to put the handle. A null path, a missing output,
/// or a path that is not UTF-8 gives `Parameter` before the engine is asked;
/// any other failure is the engine's, never reported as `NoError`. The caller
/// writes a handle out only for `Ok`.
pub fn open_image(path: Option<&[u8]>, out_given: bool) -> (r: Result<
    image::DynamicImage,
    ImageErrorCode,
>)
    ensures
        !out_given ==> r == Err::<image::DynamicImage, ImageErrorCode>(ImageErrorCode::Parameter),
        path is None ==> r == Err::<image::DynamicImage, ImageErrorCode>(ImageErrorCode::Parameter),
        path_read(path) is Err ==> r == Err::<image::DynamicImage, ImageErrorCode>(
            ImageErrorCode::Parameter,
        ),
        r matches Err(e) ==> e != ImageErrorCode::NoError,
{
    if !out_given {
        return Err(ImageErrorCode::Parameter);
    }
    match read_path(path) {
        Err(e) => Err(e),
        Ok(p) => open_outcome(engine_open(p)),
    }
}

/// Encodes `img` to the file named by `path`, in the format its extension
/// names. A null image, a null path or a path that is not UTF-8 gives
/// `Parameter` before the engine is asked; otherwise the result is
/// `NoError` or the engine's failure. The image is only read.
pub fn save_image(path: Option<&[u8]>, img: Option<&image::DynamicImage>) -> (r: ImageErrorCode)
    ensures
        img is None ==> r == ImageErrorCode::Parameter,
        path is None ==> r == ImageErrorCode::Parameter,
        path_read(path) is Err ==> r == ImageErrorCode::Parameter,
{
    match img {
        None => ImageErrorCode::Parameter,
        Some(i) => match read_path(path) {
            Err(e) => e,
            Ok(p) => save_outcome(engine_save(i, p)),
        },
    }
}

/// Flips `img` horizontally in place. No status is reported.
pub fn mirror_image(img: &mut image::DynamicImage)
    ensures
        *final(img) == mirrored_of(*old(img)),
{
    engine_flip_horizontal(img)
}

} // verus!

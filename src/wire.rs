//! Error codes as they travel across the plugin boundary.
use vstd::prelude::*;

verus! {

/// The 32-bit status that `open_image` and `save_image` report.
#[derive(Clone, Copy, Debug, PartialEq, Eq, Structural)]
pub enum ImageErrorCode {
    NoError,
    Io,
    Decoding,
    Encoding,
    Parameter,
    Unsupported,
}

/// The kinds of failure that the image engine reports, one per variant of
/// its error type.
#[derive(Clone, Copy, Debug, PartialEq, Eq, Structural)]
pub enum EngineFailure {
    Decoding,
    Encoding,
    Parameter,
    Limits,
    Unsupported,
    Io,
}

/// The numeric value of each status on the wire.
pub open spec fn code_of(e: ImageErrorCode) -> u32 {
    match e {
        ImageErrorCode::NoError => 0,
        ImageErrorCode::Io => 1,
        ImageErrorCode::Decoding => 2,
        ImageErrorCode::Encoding => 3,
        ImageErrorCode::Parameter => 4,
        ImageErrorCode::Unsupported => 5,
    }
}

/// The status with the given numeric value, if there is one.
pub open spec fn error_of_code(c: u32) -> Option<ImageErrorCode> {
    if c == 0 {
        Some(ImageErrorCode::NoError)
    } else if c == 1 {
        Some(ImageErrorCode::Io)
    } else if c == 2 {
        Some(ImageErrorCode::Decoding)
    } else if c == 3 {
        Some(ImageErrorCode::Encoding)
    } else if c == 4 {
        Some(ImageErrorCode::Parameter)
    } else if c == 5 {
        Some(ImageErrorCode::Unsupported)
    } else {
        None
    }
}

/// How the provider reports an engine failure: each kind keeps its own
/// code, and a resource limit falls under the catch-all `Unsupported`.
pub open spec fn engine_status(k: EngineFailure) -> ImageErrorCode {
    match k {
        EngineFailure::Decoding => ImageErrorCode::Decoding,
        EngineFailure::Encoding => ImageErrorCode::Encoding,
        EngineFailure::Parameter => ImageErrorCode::Parameter,
        EngineFailure::Limits => ImageErrorCode::Unsupported,
        EngineFailure::Unsupported => ImageErrorCode::Unsupported,
        EngineFailure::Io => ImageErrorCode::Io,
    }
}

/// How a consumer reads a status code: zero is success, a known code is
/// that error, and a code it does not know is `Unsupported`.
pub open spec fn status_result(c: u32) -> Result<(), ImageErrorCode> {
    match error_of_code(c) {
        Some(ImageErrorCode::NoError) => Ok(()),
        Some(e) => Err(e),
        None => Err(ImageErrorCode::Unsupported),
    }
}

impl ImageErrorCode {
    /// The value of this status on the wire.
    pub fn code(&self) -> (r: u32)
        ensures
            r == code_of(*self),
    {
        match self {
            ImageErrorCode::NoError => 0,
            ImageErrorCode::Io => 1,
            ImageErrorCode::Decoding => 2,
            ImageErrorCode::Encoding => 3,
            ImageErrorCode::Parameter => 4,
            ImageErrorCode::Unsupported => 5,
        }
    }

    /// The status whose wire value is `c`, or `None` for a value outside
    /// the six that are defined.
    pub fn from_code(c: u32) -> (r: Option<ImageErrorCode>)
        ensures
            r == error_of_code(c),
            r is None <==> c > 5,
    {
        match c {
            0 => Some(ImageErrorCode::NoError),
            1 => Some(ImageErrorCode::Io),
            2 => Some(ImageErrorCode::Decoding),
            3 => Some(ImageErrorCode::Encoding),
            4 => Some(ImageErrorCode::Parameter),
            5 => Some(ImageErrorCode::Unsupported),
            _ => None,
        }
    }

    /// The status that reports a failure of the given kind.
    pub fn from_engine(k: EngineFailure) -> (r: ImageErrorCode)
        ensures
            r == engine_status(k),
            r != ImageErrorCode::NoError,
    {
        match k {
            EngineFailure::Decoding => ImageErrorCode::Decoding,
            EngineFailure::Encoding => ImageErrorCode::Encoding,
            EngineFailure::Parameter => ImageErrorCode::Parameter,
            EngineFailure::Limits => ImageErrorCode::Unsupported,
            EngineFailure::Unsupported => ImageErrorCode::Unsupported,
            EngineFailure::Io => ImageErrorCode::Io,
        }
    }

    /// A short human-readable description of the status.
    pub fn message(&self) -> (r: &'static str)
        ensures
            *self == ImageErrorCode::NoError ==> r@ == "image no error"@,
            *self == ImageErrorCode::Io ==> r@ == "image i/o error"@,
            *self == ImageErrorCode::Decoding ==> r@ == "image decoding error"@,
            *self == ImageErrorCode::Encoding ==> r@ == "image encoding error"@,
            *self == ImageErrorCode::Parameter ==> r@ == "image parameter error"@,
            *self == ImageErrorCode::Unsupported ==> r@ == "image unsupported error"@,
    {
        match self {
            ImageErrorCode::NoError => "image no error",
            ImageErrorCode::Io => "image i/o error",
            ImageErrorCode::Decoding => "image decoding error",
            ImageErrorCode::Encoding => "image encoding error",
            ImageErrorCode::Parameter => "image parameter error",
            ImageErrorCode::Unsupported => "image unsupported error",
        }
    }
}

/// Reads a status code received from a provider: `Ok` exactly for zero, the
/// named error for the five other defined codes, and `Unsupported` for any
/// code outside the defined set.
pub fn status_from_code(c: u32) -> (r: Result<(), ImageErrorCode>)
    ensures
        r == status_result(c),
        r is Ok <==> c == 0,
{
    match ImageErrorCode::from_code(c) {
        Some(ImageErrorCode::NoError) => Ok(()),
        Some(e) => Err(e),
        None => Err(ImageErrorCode::Unsupported),
    }
}

/// Every status survives the trip to its wire value and back.
pub proof fn lemma_code_round_trip(e: ImageErrorCode)
    ensures
        error_of_code(code_of(e)) == Some(e),
        code_of(e) <= 5,
{
}

/// Two statuses with the same wire value are the same status.
pub proof fn lemma_code_injective(a: ImageErrorCode, b: ImageErrorCode)
    requires
        code_of(a) == code_of(b),
    ensures
        a == b,
{
}

/// A status sent by a provider is read back by a consumer as itself: success
/// for `NoError`, the same error otherwise.
pub proof fn lemma_status_agrees(e: ImageErrorCode)
    ensures
        e == ImageErrorCode::NoError ==> status_result(code_of(e)) == Ok::<(), ImageErrorCode>(()),
        e != ImageErrorCode::NoError ==> status_result(code_of(e)) == Err::<(), ImageErrorCode>(e),
{
}

} // verus!

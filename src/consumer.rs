//! The consumer's side of the boundary: the size handshake on a loaded
//! function table, and the reading of what the provider hands back. Handles
//! are taken as their address; zero is the null handle.
use vstd::prelude::*;

use crate::wire::status_from_code;
use crate::wire::status_result;
use crate::wire::ImageErrorCode;

verus! {

/// Why a provider library could not be used.
#[derive(Debug)]
pub enum LoadError {
    /// The shared object could not be mapped; the loader's reason.
    Library(String),
    /// The shared object has no usable `functions` symbol; the loader's reason.
    Symbol(String),
    /// The table's `size` is not the width this consumer was built with.
    SizeMismatch { provided: usize, expected: usize },
}

/// Accepts a function table only when the width that the provider wrote
/// into it equals the width that this consumer expects; no slot of a table
/// refused here may be called.
pub fn check_table_size(provided: usize, expected: usize) -> (r: Result<(), LoadError>)
    ensures
        r is Ok <==> provided == expected,
        r matches Err(e) ==> e == (LoadError::SizeMismatch { provided, expected }),
{
    if provided == expected {
        Ok(())
    } else {
        Err(LoadError::SizeMismatch { provided, expected })
    }
}

/// What a consumer makes of an open call that reported `code` and left
/// `handle` in its output.
pub open spec fn opened(code: u32, handle: usize) -> Result<usize, ImageErrorCode> {
    match status_result(code) {
        Err(e) => Err(e),
        Ok(()) => if handle == 0 {
            Err(ImageErrorCode::Unsupported)
        } else {
            Ok(handle)
        },
    }
}

/// Reads the outcome of an open call: the handle when the status is
/// `NoError` and the handle is not null, the reported error otherwise, and
/// `Unsupported` for a null handle reported as a success.
pub fn accept_opened(code: u32, handle: usize) -> (r: Result<usize, ImageErrorCode>)
    ensures
        r == opened(code, handle),
        r matches Ok(h) ==> h != 0,
{
    match status_from_code(code) {
        Err(e) => Err(e),
        Ok(()) => if handle == 0 {
            Err(ImageErrorCode::Unsupported)
        } else {
            Ok(handle)
        },
    }
}

/// Reads the handle that a blur call returned: a null handle is reported as
/// `Unsupported`, any other is kept.
pub fn accept_blurred(handle: usize) -> (r: Result<usize, ImageErrorCode>)
    ensures
        handle == 0 ==> r == Err::<usize, ImageErrorCode>(ImageErrorCode::Unsupported),
        handle != 0 ==> r == Ok::<usize, ImageErrorCode>(handle),
{
    if handle == 0 {
        Err(ImageErrorCode::Unsupported)
    } else {
        Ok(handle)
    }
}

} // verus!

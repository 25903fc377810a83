//! Paths across the plugin boundary: null-terminated UTF-8 byte strings.
use vstd::prelude::*;
use vstd::utf8::decode_utf8;
use vstd::utf8::valid_utf8;

use crate::engine::utf8_text;
use crate::wire::ImageErrorCode;

verus! {

/// A path can cross the boundary when it is UTF-8 and holds no NUL byte,
/// which would cut it short.
pub open spec fn path_accepted(p: Seq<u8>) -> bool {
    valid_utf8(p) && !p.contains(0u8)
}

/// What a consumer hands across the boundary for the path `p`: its bytes and
/// a NUL terminator, or a parameter error for a path that cannot cross.
pub open spec fn marshalled(p: Seq<u8>) -> Result<Seq<u8>, ImageErrorCode> {
    if path_accepted(p) {
        Ok(p.push(0u8))
    } else {
        Err(ImageErrorCode::Parameter)
    }
}

/// What a provider reads from a path argument: `None` is the null pointer,
/// `Some(b)` the bytes before the terminator.
pub open spec fn path_read(raw: Option<&[u8]>) -> Result<Seq<char>, ImageErrorCode> {
    match raw {
        None => Err(ImageErrorCode::Parameter),
        Some(b) => if valid_utf8(b@) {
            Ok(decode_utf8(b@))
        } else {
            Err(ImageErrorCode::Parameter)
        },
    }
}

/// Turns the bytes of a path into the null-terminated buffer that is passed
/// across the boundary. A path that is not UTF-8, or that holds a NUL byte,
/// is refused with `Parameter`.
pub fn marshal_path(path: &[u8]) -> (r: Result<Vec<u8>, ImageErrorCode>)
    ensures
        r matches Ok(v) ==> marshalled(path@) == Ok::<Seq<u8>, ImageErrorCode>(v@),
        r matches Err(e) ==> marshalled(path@) == Err::<Seq<u8>, ImageErrorCode>(e),
        r is Ok <==> path_accepted(path@),
        !valid_utf8(path@) ==> r == Err::<Vec<u8>, ImageErrorCode>(ImageErrorCode::Parameter),
{
    if utf8_text(path).is_none() {
        return Err(ImageErrorCode::Parameter);
    }
    let mut out: Vec<u8> = Vec::new();
    let mut i: usize = 0;
    while i < path.len()
        invariant
            i <= path@.len(),
            out@ == path@.subrange(0, i as int),
            forall|k: int| 0 <= k < i ==> path@[k] != 0u8,
        decreases path@.len() - i,
    {
        let b = path[i];
        if b == 0 {
            assert(path@[i as int] == 0u8);
            return Err(ImageErrorCode::Parameter);
        }
        out.push(b);
        i = i + 1;
        assert(out@ == path@.subrange(0, i as int));
    }
    assert(out@ == path@);
    out.push(0u8);
    Ok(out)
}

/// Reads a path argument on the provider side. A null path, or one that is
/// not UTF-8, is refused with `Parameter`; otherwise the result is the text
/// that the bytes encode.
pub fn read_path(raw: Option<&[u8]>) -> (r: Result<&str, ImageErrorCode>)
    ensures
        r matches Ok(s) ==> path_read(raw) == Ok::<Seq<char>, ImageErrorCode>(s@),
        r matches Err(e) ==> path_read(raw) == Err::<Seq<char>, ImageErrorCode>(e),
{
    match raw {
        None => Err(ImageErrorCode::Parameter),
        Some(b) => match utf8_text(b) {
            Some(s) => Ok(s),
            None => Err(ImageErrorCode::Parameter),
        },
    }
}

} // verus!

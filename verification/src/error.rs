//! Errors reported by the cuVS C library.

use vstd::prelude::*;
use vstd::string::*;

use crate::ffi::cuvsError_t;
use crate::text::decode_lossy;

verus! {

/// An error reported by the cuVS C library, by its message.
#[derive(Debug)]
pub struct LibraryError(pub String);

/// The message of a failed call whose error text is `text`, or that left none.
pub open spec fn failure_message(text: Option<Seq<u8>>) -> Seq<char> {
    match text {
        Some(bytes) if bytes.len() > 0 => crate::text::utf8_lossy(bytes),
        _ => "unknown cuVS error"@,
    }
}

/// Checks the return status of a C call.
///
/// `text` is the thread-local error text, without its final zero, read before
/// any other call can overwrite it; it is not looked at after a success.
pub fn check_cuvs(status: cuvsError_t, text: Option<&[u8]>) -> (r: Result<(), LibraryError>)
    ensures
        r is Ok <==> status == cuvsError_t::CUVS_SUCCESS,
        r matches Err(e) ==> e.0@ == failure_message(
            match text {
                Some(bytes) => Some(bytes@),
                None => None,
            },
        ) && e.0@.len() > 0,
{
    if status == cuvsError_t::CUVS_SUCCESS {
        return Ok(());
    }
    match text {
        Some(bytes) if bytes.len() > 0 => Err(LibraryError(decode_lossy(bytes))),
        _ => {
            proof {
                reveal_strlit("unknown cuVS error");
            }
            Err(LibraryError(String::from_str("unknown cuVS error")))
        },
    }
}

impl LibraryError {
    pub fn to_string(&self) -> (r: String)
        ensures
            r@ == self.0@,
    {
        self.0.clone()
    }
}

} // verus!

//! Version of the C library.

use vstd::prelude::*;

use crate::call::Call;

verus! {

/// Asks for the version, which is answered as major, minor and patch number.
pub fn version() -> (r: Call<'static>)
    ensures
        r == Call::VersionGet,
{
    Call::VersionGet
}

} // verus!

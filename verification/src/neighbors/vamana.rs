//! Vamana: DiskANN-compatible graph construction and serialization.
//!
//! The C library builds and writes Vamana indices; it neither searches nor
//! loads them.

use vstd::prelude::*;
use vstd::string::*;

use crate::dlpack::DLPackError;
use crate::error::LibraryError;
use crate::path::NulError;
use crate::text::with_text;

pub mod index;
pub mod params;

pub use crate::neighbors::vamana::index::Index;
pub use crate::neighbors::vamana::params::IndexParams;

verus! {

/// Error type for Vamana operations.
#[derive(Debug)]
pub enum VamanaError {
    /// The C library reported a failure.
    Library(LibraryError),
    /// Tensor conversion into DLPack metadata failed.
    DLPack(DLPackError),
    /// A file path contained an interior zero byte.
    InvalidPath(NulError),
    /// A parameter value failed validation.
    Validation(String),
}

impl VamanaError {
    /// The message of the error.
    pub open spec fn message(self) -> Seq<char> {
        match self {
            VamanaError::Library(e) => e.0@,
            VamanaError::DLPack(e) => e.message(),
            VamanaError::InvalidPath(_) => "path contains interior NUL byte"@,
            VamanaError::Validation(text) => "invalid parameter: "@ + text@,
        }
    }

    pub fn to_string(&self) -> (r: String)
        ensures
            r@ == self.message(),
    {
        match self {
            VamanaError::Library(e) => e.to_string(),
            VamanaError::DLPack(e) => e.to_string(),
            VamanaError::InvalidPath(_) => String::from_str("path contains interior NUL byte"),
            VamanaError::Validation(text) => with_text("invalid parameter: ", text.as_str()),
        }
    }
}

impl vstd::std_specs::convert::FromSpecImpl<LibraryError> for VamanaError {
    open spec fn obeys_from_spec() -> bool {
        true
    }

    open spec fn from_spec(e: LibraryError) -> VamanaError {
        VamanaError::Library(e)
    }
}

impl From<LibraryError> for VamanaError {
    fn from(e: LibraryError) -> (r: VamanaError) {
        VamanaError::Library(e)
    }
}

impl vstd::std_specs::convert::FromSpecImpl<DLPackError> for VamanaError {
    open spec fn obeys_from_spec() -> bool {
        true
    }

    open spec fn from_spec(e: DLPackError) -> VamanaError {
        VamanaError::DLPack(e)
    }
}

impl From<DLPackError> for VamanaError {
    fn from(e: DLPackError) -> (r: VamanaError) {
        VamanaError::DLPack(e)
    }
}

impl vstd::std_specs::convert::FromSpecImpl<NulError> for VamanaError {
    open spec fn obeys_from_spec() -> bool {
        true
    }

    open spec fn from_spec(e: NulError) -> VamanaError {
        VamanaError::InvalidPath(e)
    }
}

impl From<NulError> for VamanaError {
    fn from(e: NulError) -> (r: VamanaError) {
        VamanaError::InvalidPath(e)
    }
}

} // verus!

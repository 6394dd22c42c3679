//! IVF-Flat: inverted-file index with uncompressed (flat) vectors.
//!
//! Partitions the dataset into `n_lists` Voronoi cells and stores the raw
//! vectors in each cell. At search time only the `n_probes` closest cells are
//! scanned.

use vstd::prelude::*;
use vstd::string::*;

use crate::dlpack::{DLPackError, ViewError};
use crate::error::LibraryError;
use crate::path::NulError;
use crate::text::with_text;

pub mod index;
pub mod params;

pub use crate::neighbors::filters::SearchFilter;
pub use crate::neighbors::ivf_flat::index::Index;
pub use crate::neighbors::ivf_flat::params::{IndexParams, SearchParams};

verus! {

/// Error type for IVF-Flat operations.
#[derive(Debug)]
pub enum IvfFlatError {
    /// The C library reported a failure.
    Library(LibraryError),
    /// Tensor conversion into DLPack metadata failed.
    DLPack(DLPackError),
    /// A file path contained an interior zero byte.
    InvalidPath(NulError),
    /// A parameter value failed validation.
    Validation(String),
}

impl IvfFlatError {
    /// The message of the error.
    pub open spec fn message(self) -> Seq<char> {
        match self {
            IvfFlatError::Library(e) => e.0@,
            IvfFlatError::DLPack(e) => e.message(),
            IvfFlatError::InvalidPath(_) => "path contains interior NUL byte"@,
            IvfFlatError::Validation(text) => "invalid parameter: "@ + text@,
        }
    }

    pub fn to_string(&self) -> (r: String)
        ensures
            r@ == self.message(),
    {
        match self {
            IvfFlatError::Library(e) => e.to_string(),
            IvfFlatError::DLPack(e) => e.to_string(),
            IvfFlatError::InvalidPath(_) => String::from_str("path contains interior NUL byte"),
            IvfFlatError::Validation(text) => with_text("invalid parameter: ", text.as_str()),
        }
    }
}

impl vstd::std_specs::convert::FromSpecImpl<LibraryError> for IvfFlatError {
    open spec fn obeys_from_spec() -> bool {
        true
    }

    open spec fn from_spec(e: LibraryError) -> IvfFlatError {
        IvfFlatError::Library(e)
    }
}

impl From<LibraryError> for IvfFlatError {
    fn from(e: LibraryError) -> (r: IvfFlatError) {
        IvfFlatError::Library(e)
    }
}

impl vstd::std_specs::convert::FromSpecImpl<DLPackError> for IvfFlatError {
    open spec fn obeys_from_spec() -> bool {
        true
    }

    open spec fn from_spec(e: DLPackError) -> IvfFlatError {
        IvfFlatError::DLPack(e)
    }
}

impl From<DLPackError> for IvfFlatError {
    fn from(e: DLPackError) -> (r: IvfFlatError) {
        IvfFlatError::DLPack(e)
    }
}

impl vstd::std_specs::convert::FromSpecImpl<NulError> for IvfFlatError {
    open spec fn obeys_from_spec() -> bool {
        true
    }

    open spec fn from_spec(e: NulError) -> IvfFlatError {
        IvfFlatError::InvalidPath(e)
    }
}

impl From<NulError> for IvfFlatError {
    fn from(e: NulError) -> (r: IvfFlatError) {
        IvfFlatError::InvalidPath(e)
    }
}

impl vstd::std_specs::convert::FromSpecImpl<ViewError> for IvfFlatError {
    open spec fn obeys_from_spec() -> bool {
        true
    }

    open spec fn from_spec(e: ViewError) -> IvfFlatError {
        match e {
            ViewError::Library(e) => IvfFlatError::Library(e),
            ViewError::DLPack(e) => IvfFlatError::DLPack(e),
        }
    }
}

impl From<ViewError> for IvfFlatError {
    fn from(e: ViewError) -> (r: IvfFlatError) {
        match e {
            ViewError::Library(e) => IvfFlatError::Library(e),
            ViewError::DLPack(e) => IvfFlatError::DLPack(e),
        }
    }
}

} // verus!

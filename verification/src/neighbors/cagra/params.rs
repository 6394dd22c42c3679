//! Parameters for CAGRA index build, search and extension.
//!
//! Each parameter type owns a record of the C library. Every setting is
//! optional: one that is not given keeps the default that the library put into
//! the record when it made it.

pub mod ace;
pub mod compression;
pub mod construct;
pub mod extend;
pub mod graph;
pub mod search;

pub use crate::neighbors::cagra::params::ace::AceParams;
pub use crate::neighbors::cagra::params::compression::CompressionParams;
pub use crate::neighbors::cagra::params::construct::IndexParams;
pub use crate::neighbors::cagra::params::extend::ExtendParams;
pub use crate::neighbors::cagra::params::graph::IvfPqGraphBuildParams;
pub use crate::neighbors::cagra::params::search::SearchParams;

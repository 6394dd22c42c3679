//! Checked parameters, tensor metadata and call plans for the cuVS C library.

pub mod array;
pub mod binary;
#[allow(non_camel_case_types)]
pub mod call;
pub mod cluster;
pub mod construction;
pub mod dims;
pub mod distance;
pub mod dlpack;
pub mod error;
#[allow(non_camel_case_types)]
pub mod ffi;
pub mod laws;
pub mod logging;
pub mod neighbors;
pub mod path;
pub mod release;
pub mod resources;
pub mod settings;
pub mod text;
pub mod torch;
pub mod version;

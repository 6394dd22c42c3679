//! IVF-PQ: inverted-file index with product-quantized vectors.
//!
//! Partitions the dataset into `n_lists` Voronoi cells and compresses each
//! vector with product quantization.

use vstd::prelude::*;
use vstd::string::*;

use crate::dlpack::{DLPackError, ViewError};
use crate::error::LibraryError;
use crate::ffi::{cudaDataType_t, cuvsIvfPqCodebookGen, cuvsIvfPqListLayout};
use crate::path::NulError;
use crate::text::with_text;

pub mod index;
pub mod params;

pub use crate::neighbors::ivf_pq::index::{Index, PrecomputedIndex};
pub use crate::neighbors::ivf_pq::params::{IndexParams, SearchParams};

verus! {

/// Strategy for creating PQ codebooks.
#[derive(Debug, Copy, Clone, Hash, PartialEq, Eq, Structural)]
#[non_exhaustive]
pub enum CodebookGen {
    /// One codebook per PQ subspace.
    PerSubspace,
    /// One codebook per IVF cluster.
    PerCluster,
}

impl CodebookGen {
    /// The C library's name of the choice.
    pub open spec fn code(self) -> cuvsIvfPqCodebookGen {
        match self {
            CodebookGen::PerSubspace => cuvsIvfPqCodebookGen::CUVS_IVF_PQ_CODEBOOK_GEN_PER_SUBSPACE,
            CodebookGen::PerCluster => cuvsIvfPqCodebookGen::CUVS_IVF_PQ_CODEBOOK_GEN_PER_CLUSTER,
        }
    }

    /// The choice of a C name.
    pub open spec fn of_code(code: cuvsIvfPqCodebookGen) -> CodebookGen {
        match code {
            cuvsIvfPqCodebookGen::CUVS_IVF_PQ_CODEBOOK_GEN_PER_SUBSPACE => CodebookGen::PerSubspace,
            cuvsIvfPqCodebookGen::CUVS_IVF_PQ_CODEBOOK_GEN_PER_CLUSTER => CodebookGen::PerCluster,
        }
    }
}

impl vstd::std_specs::convert::FromSpecImpl<CodebookGen> for cuvsIvfPqCodebookGen {
    open spec fn obeys_from_spec() -> bool {
        true
    }

    open spec fn from_spec(v: CodebookGen) -> cuvsIvfPqCodebookGen {
        v.code()
    }
}

impl From<CodebookGen> for cuvsIvfPqCodebookGen {
    fn from(v: CodebookGen) -> (r: cuvsIvfPqCodebookGen) {
        match v {
            CodebookGen::PerSubspace => cuvsIvfPqCodebookGen::CUVS_IVF_PQ_CODEBOOK_GEN_PER_SUBSPACE,
            CodebookGen::PerCluster => cuvsIvfPqCodebookGen::CUVS_IVF_PQ_CODEBOOK_GEN_PER_CLUSTER,
        }
    }
}

impl vstd::std_specs::convert::FromSpecImpl<cuvsIvfPqCodebookGen> for CodebookGen {
    open spec fn obeys_from_spec() -> bool {
        true
    }

    open spec fn from_spec(v: cuvsIvfPqCodebookGen) -> CodebookGen {
        CodebookGen::of_code(v)
    }
}

impl From<cuvsIvfPqCodebookGen> for CodebookGen {
    fn from(v: cuvsIvfPqCodebookGen) -> (r: CodebookGen) {
        match v {
            cuvsIvfPqCodebookGen::CUVS_IVF_PQ_CODEBOOK_GEN_PER_SUBSPACE => CodebookGen::PerSubspace,
            cuvsIvfPqCodebookGen::CUVS_IVF_PQ_CODEBOOK_GEN_PER_CLUSTER => CodebookGen::PerCluster,
        }
    }
}

/// Memory layout of IVF-PQ list data.
#[derive(Debug, Copy, Clone, Hash, PartialEq, Eq, Structural)]
#[non_exhaustive]
pub enum ListLayout {
    /// Codes stored contiguously (one vector after another).
    Flat,
    /// Codes interleaved for optimised search performance.
    Interleaved,
}

impl ListLayout {
    /// The C library's name of the choice.
    pub open spec fn code(self) -> cuvsIvfPqListLayout {
        match self {
            ListLayout::Flat => cuvsIvfPqListLayout::CUVS_IVF_PQ_LIST_LAYOUT_FLAT,
            ListLayout::Interleaved => cuvsIvfPqListLayout::CUVS_IVF_PQ_LIST_LAYOUT_INTERLEAVED,
        }
    }

    /// The choice of a C name.
    pub open spec fn of_code(code: cuvsIvfPqListLayout) -> ListLayout {
        match code {
            cuvsIvfPqListLayout::CUVS_IVF_PQ_LIST_LAYOUT_FLAT => ListLayout::Flat,
            cuvsIvfPqListLayout::CUVS_IVF_PQ_LIST_LAYOUT_INTERLEAVED => ListLayout::Interleaved,
        }
    }
}

impl vstd::std_specs::convert::FromSpecImpl<ListLayout> for cuvsIvfPqListLayout {
    open spec fn obeys_from_spec() -> bool {
        true
    }

    open spec fn from_spec(v: ListLayout) -> cuvsIvfPqListLayout {
        v.code()
    }
}

impl From<ListLayout> for cuvsIvfPqListLayout {
    fn from(v: ListLayout) -> (r: cuvsIvfPqListLayout) {
        match v {
            ListLayout::Flat => cuvsIvfPqListLayout::CUVS_IVF_PQ_LIST_LAYOUT_FLAT,
            ListLayout::Interleaved => cuvsIvfPqListLayout::CUVS_IVF_PQ_LIST_LAYOUT_INTERLEAVED,
        }
    }
}

impl vstd::std_specs::convert::FromSpecImpl<cuvsIvfPqListLayout> for ListLayout {
    open spec fn obeys_from_spec() -> bool {
        true
    }

    open spec fn from_spec(v: cuvsIvfPqListLayout) -> ListLayout {
        ListLayout::of_code(v)
    }
}

impl From<cuvsIvfPqListLayout> for ListLayout {
    fn from(v: cuvsIvfPqListLayout) -> (r: ListLayout) {
        match v {
            cuvsIvfPqListLayout::CUVS_IVF_PQ_LIST_LAYOUT_FLAT => ListLayout::Flat,
            cuvsIvfPqListLayout::CUVS_IVF_PQ_LIST_LAYOUT_INTERLEAVED => ListLayout::Interleaved,
        }
    }
}

/// Lookup-table element type used during IVF-PQ search.
#[derive(Debug, Copy, Clone, Hash, PartialEq, Eq, Structural)]
#[non_exhaustive]
pub enum LutDType {
    /// 32-bit floating-point lookup tables.
    F32,
    /// 16-bit floating-point lookup tables.
    F16,
    /// 8-bit unsigned lookup tables.
    U8,
}

impl LutDType {
    /// The C library's name of the choice.
    pub open spec fn code(self) -> cudaDataType_t {
        match self {
            LutDType::F32 => cudaDataType_t::CUDA_R_32F,
            LutDType::F16 => cudaDataType_t::CUDA_R_16F,
            LutDType::U8 => cudaDataType_t::CUDA_R_8U,
        }
    }
}

impl vstd::std_specs::convert::FromSpecImpl<LutDType> for cudaDataType_t {
    open spec fn obeys_from_spec() -> bool {
        true
    }

    open spec fn from_spec(v: LutDType) -> cudaDataType_t {
        v.code()
    }
}

impl From<LutDType> for cudaDataType_t {
    fn from(v: LutDType) -> (r: cudaDataType_t) {
        match v {
            LutDType::F32 => cudaDataType_t::CUDA_R_32F,
            LutDType::F16 => cudaDataType_t::CUDA_R_16F,
            LutDType::U8 => cudaDataType_t::CUDA_R_8U,
        }
    }
}

/// Accumulator element type used for internal IVF-PQ distance computation.
#[derive(Debug, Copy, Clone, Hash, PartialEq, Eq, Structural)]
#[non_exhaustive]
pub enum InternalDistanceDType {
    /// 32-bit floating-point accumulators.
    F32,
    /// 16-bit floating-point accumulators.
    F16,
}

impl InternalDistanceDType {
    /// The C library's name of the choice.
    pub open spec fn code(self) -> cudaDataType_t {
        match self {
            InternalDistanceDType::F32 => cudaDataType_t::CUDA_R_32F,
            InternalDistanceDType::F16 => cudaDataType_t::CUDA_R_16F,
        }
    }
}

impl vstd::std_specs::convert::FromSpecImpl<InternalDistanceDType> for cudaDataType_t {
    open spec fn obeys_from_spec() -> bool {
        true
    }

    open spec fn from_spec(v: InternalDistanceDType) -> cudaDataType_t {
        v.code()
    }
}

impl From<InternalDistanceDType> for cudaDataType_t {
    fn from(v: InternalDistanceDType) -> (r: cudaDataType_t) {
        match v {
            InternalDistanceDType::F32 => cudaDataType_t::CUDA_R_32F,
            InternalDistanceDType::F16 => cudaDataType_t::CUDA_R_16F,
        }
    }
}

/// Element type used to identify the coarse clusters to probe.
#[derive(Debug, Copy, Clone, Hash, PartialEq, Eq, Structural)]
#[non_exhaustive]
pub enum CoarseSearchDType {
    /// 32-bit floating-point coarse search.
    F32,
    /// 16-bit floating-point coarse search.
    F16,
    /// 8-bit signed coarse search.
    I8,
}

impl CoarseSearchDType {
    /// The C library's name of the choice.
    pub open spec fn code(self) -> cudaDataType_t {
        match self {
            CoarseSearchDType::F32 => cudaDataType_t::CUDA_R_32F,
            CoarseSearchDType::F16 => cudaDataType_t::CUDA_R_16F,
            CoarseSearchDType::I8 => cudaDataType_t::CUDA_R_8I,
        }
    }
}

impl vstd::std_specs::convert::FromSpecImpl<CoarseSearchDType> for cudaDataType_t {
    open spec fn obeys_from_spec() -> bool {
        true
    }

    open spec fn from_spec(v: CoarseSearchDType) -> cudaDataType_t {
        v.code()
    }
}

impl From<CoarseSearchDType> for cudaDataType_t {
    fn from(v: CoarseSearchDType) -> (r: cudaDataType_t) {
        match v {
            CoarseSearchDType::F32 => cudaDataType_t::CUDA_R_32F,
            CoarseSearchDType::F16 => cudaDataType_t::CUDA_R_16F,
            CoarseSearchDType::I8 => cudaDataType_t::CUDA_R_8I,
        }
    }
}

/// Every choice that the C library names, and every such name, survives the way
/// there and back.
pub proof fn choices_round_trip()
    ensures
        forall|v: CodebookGen| CodebookGen::of_code(#[trigger] v.code()) == v,
        forall|c: cuvsIvfPqCodebookGen| (#[trigger] CodebookGen::of_code(c)).code() == c,
        forall|v: ListLayout| ListLayout::of_code(#[trigger] v.code()) == v,
        forall|c: cuvsIvfPqListLayout| (#[trigger] ListLayout::of_code(c)).code() == c,
{
}

/// Error type for IVF-PQ operations.
#[derive(Debug)]
pub enum IvfPqError {
    /// The C library reported a failure.
    Library(LibraryError),
    /// Tensor conversion into DLPack metadata failed.
    DLPack(DLPackError),
    /// A file path contained an interior zero byte.
    InvalidPath(NulError),
    /// A parameter value failed validation.
    Validation(String),
}

impl IvfPqError {
    /// The message of the error.
    pub open spec fn message(self) -> Seq<char> {
        match self {
            IvfPqError::Library(e) => e.0@,
            IvfPqError::DLPack(e) => e.message(),
            IvfPqError::InvalidPath(_) => "path contains interior NUL byte"@,
            IvfPqError::Validation(text) => "invalid parameter: "@ + text@,
        }
    }

    pub fn to_string(&self) -> (r: String)
        ensures
            r@ == self.message(),
    {
        match self {
            IvfPqError::Library(e) => e.to_string(),
            IvfPqError::DLPack(e) => e.to_string(),
            IvfPqError::InvalidPath(_) => String::from_str("path contains interior NUL byte"),
            IvfPqError::Validation(text) => with_text("invalid parameter: ", text.as_str()),
        }
    }
}

impl vstd::std_specs::convert::FromSpecImpl<LibraryError> for IvfPqError {
    open spec fn obeys_from_spec() -> bool {
        true
    }

    open spec fn from_spec(e: LibraryError) -> IvfPqError {
        IvfPqError::Library(e)
    }
}

impl From<LibraryError> for IvfPqError {
    fn from(e: LibraryError) -> (r: IvfPqError) {
        IvfPqError::Library(e)
    }
}

impl vstd::std_specs::convert::FromSpecImpl<DLPackError> for IvfPqError {
    open spec fn obeys_from_spec() -> bool {
        true
    }

    open spec fn from_spec(e: DLPackError) -> IvfPqError {
        IvfPqError::DLPack(e)
    }
}

impl From<DLPackError> for IvfPqError {
    fn from(e: DLPackError) -> (r: IvfPqError) {
        IvfPqError::DLPack(e)
    }
}

impl vstd::std_specs::convert::FromSpecImpl<NulError> for IvfPqError {
    open spec fn obeys_from_spec() -> bool {
        true
    }

    open spec fn from_spec(e: NulError) -> IvfPqError {
        IvfPqError::InvalidPath(e)
    }
}

impl From<NulError> for IvfPqError {
    fn from(e: NulError) -> (r: IvfPqError) {
        IvfPqError::InvalidPath(e)
    }
}

impl vstd::std_specs::convert::FromSpecImpl<ViewError> for IvfPqError {
    open spec fn obeys_from_spec() -> bool {
        true
    }

    open spec fn from_spec(e: ViewError) -> IvfPqError {
        match e {
            ViewError::Library(e) => IvfPqError::Library(e),
            ViewError::DLPack(e) => IvfPqError::DLPack(e),
        }
    }
}

impl From<ViewError> for IvfPqError {
    fn from(e: ViewError) -> (r: IvfPqError) {
        match e {
            ViewError::Library(e) => IvfPqError::Library(e),
            ViewError::DLPack(e) => IvfPqError::DLPack(e),
        }
    }
}

} // verus!

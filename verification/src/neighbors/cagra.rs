//! CAGRA: graph-based approximate nearest neighbor search.
//!
//! CAGRA builds a k-NN graph and uses it for fast approximate nearest neighbor
//! queries.

use vstd::prelude::*;
use vstd::string::*;

use crate::dlpack::{DLPackError, ViewError};
use crate::error::LibraryError;
use crate::ffi::{cuvsCagraGraphBuildAlgo, cuvsCagraHashMode, cuvsCagraHnswHeuristicType, cuvsCagraSearchAlgo};
use crate::path::NulError;
use crate::text::with_text;

pub mod index;
pub mod params;

pub use crate::neighbors::cagra::index::{Index, Merging};
pub use crate::neighbors::cagra::params::{
    AceParams, CompressionParams, ExtendParams, IndexParams, IvfPqGraphBuildParams, SearchParams,
};
pub use crate::neighbors::filters::SearchFilter;

verus! {

/// Algorithm for building the internal k-NN graph.
#[derive(Debug, Copy, Clone, Hash, PartialEq, Eq, Structural)]
#[non_exhaustive]
pub enum GraphBuildAlgo {
    /// Automatically select the best algorithm.
    Auto,
    /// Build using IVF-PQ.
    IvfPq,
    /// Build using NN-Descent.
    NnDescent,
    /// Build using iterative CAGRA search.
    IterativeCagraSearch,
    /// Build using ACE (Augmented Core Extraction) for large datasets.
    Ace,
}

impl GraphBuildAlgo {
    /// The C library's name of the choice.
    pub open spec fn code(self) -> cuvsCagraGraphBuildAlgo {
        match self {
            GraphBuildAlgo::Auto => cuvsCagraGraphBuildAlgo::AUTO_SELECT,
            GraphBuildAlgo::IvfPq => cuvsCagraGraphBuildAlgo::IVF_PQ,
            GraphBuildAlgo::NnDescent => cuvsCagraGraphBuildAlgo::NN_DESCENT,
            GraphBuildAlgo::IterativeCagraSearch => cuvsCagraGraphBuildAlgo::ITERATIVE_CAGRA_SEARCH,
            GraphBuildAlgo::Ace => cuvsCagraGraphBuildAlgo::ACE,
        }
    }

    /// The choice of a C name.
    pub open spec fn of_code(code: cuvsCagraGraphBuildAlgo) -> GraphBuildAlgo {
        match code {
            cuvsCagraGraphBuildAlgo::AUTO_SELECT => GraphBuildAlgo::Auto,
            cuvsCagraGraphBuildAlgo::IVF_PQ => GraphBuildAlgo::IvfPq,
            cuvsCagraGraphBuildAlgo::NN_DESCENT => GraphBuildAlgo::NnDescent,
            cuvsCagraGraphBuildAlgo::ITERATIVE_CAGRA_SEARCH => GraphBuildAlgo::IterativeCagraSearch,
            cuvsCagraGraphBuildAlgo::ACE => GraphBuildAlgo::Ace,
        }
    }
}

impl vstd::std_specs::convert::FromSpecImpl<GraphBuildAlgo> for cuvsCagraGraphBuildAlgo {
    open spec fn obeys_from_spec() -> bool {
        true
    }

    open spec fn from_spec(v: GraphBuildAlgo) -> cuvsCagraGraphBuildAlgo {
        v.code()
    }
}

impl From<GraphBuildAlgo> for cuvsCagraGraphBuildAlgo {
    fn from(v: GraphBuildAlgo) -> (r: cuvsCagraGraphBuildAlgo) {
        match v {
            GraphBuildAlgo::Auto => cuvsCagraGraphBuildAlgo::AUTO_SELECT,
            GraphBuildAlgo::IvfPq => cuvsCagraGraphBuildAlgo::IVF_PQ,
            GraphBuildAlgo::NnDescent => cuvsCagraGraphBuildAlgo::NN_DESCENT,
            GraphBuildAlgo::IterativeCagraSearch => cuvsCagraGraphBuildAlgo::ITERATIVE_CAGRA_SEARCH,
            GraphBuildAlgo::Ace => cuvsCagraGraphBuildAlgo::ACE,
        }
    }
}

impl vstd::std_specs::convert::FromSpecImpl<cuvsCagraGraphBuildAlgo> for GraphBuildAlgo {
    open spec fn obeys_from_spec() -> bool {
        true
    }

    open spec fn from_spec(v: cuvsCagraGraphBuildAlgo) -> GraphBuildAlgo {
        GraphBuildAlgo::of_code(v)
    }
}

impl From<cuvsCagraGraphBuildAlgo> for GraphBuildAlgo {
    fn from(v: cuvsCagraGraphBuildAlgo) -> (r: GraphBuildAlgo) {
        match v {
            cuvsCagraGraphBuildAlgo::AUTO_SELECT => GraphBuildAlgo::Auto,
            cuvsCagraGraphBuildAlgo::IVF_PQ => GraphBuildAlgo::IvfPq,
            cuvsCagraGraphBuildAlgo::NN_DESCENT => GraphBuildAlgo::NnDescent,
            cuvsCagraGraphBuildAlgo::ITERATIVE_CAGRA_SEARCH => GraphBuildAlgo::IterativeCagraSearch,
            cuvsCagraGraphBuildAlgo::ACE => GraphBuildAlgo::Ace,
        }
    }
}

/// Search kernel implementation.
#[derive(Debug, Copy, Clone, Hash, PartialEq, Eq, Structural)]
#[non_exhaustive]
pub enum SearchAlgo {
    /// Single CTA, best for large batch sizes.
    SingleCta,
    /// Multi CTA, best for small batch sizes.
    MultiCta,
    /// Multi kernel, best for small batch sizes.
    MultiKernel,
    /// Automatically select the best kernel.
    Auto,
}

impl SearchAlgo {
    /// The C library's name of the choice.
    pub open spec fn code(self) -> cuvsCagraSearchAlgo {
        match self {
            SearchAlgo::SingleCta => cuvsCagraSearchAlgo::SINGLE_CTA,
            SearchAlgo::MultiCta => cuvsCagraSearchAlgo::MULTI_CTA,
            SearchAlgo::MultiKernel => cuvsCagraSearchAlgo::MULTI_KERNEL,
            SearchAlgo::Auto => cuvsCagraSearchAlgo::AUTO,
        }
    }

    /// The choice of a C name.
    pub open spec fn of_code(code: cuvsCagraSearchAlgo) -> SearchAlgo {
        match code {
            cuvsCagraSearchAlgo::SINGLE_CTA => SearchAlgo::SingleCta,
            cuvsCagraSearchAlgo::MULTI_CTA => SearchAlgo::MultiCta,
            cuvsCagraSearchAlgo::MULTI_KERNEL => SearchAlgo::MultiKernel,
            cuvsCagraSearchAlgo::AUTO => SearchAlgo::Auto,
        }
    }
}

impl vstd::std_specs::convert::FromSpecImpl<SearchAlgo> for cuvsCagraSearchAlgo {
    open spec fn obeys_from_spec() -> bool {
        true
    }

    open spec fn from_spec(v: SearchAlgo) -> cuvsCagraSearchAlgo {
        v.code()
    }
}

impl From<SearchAlgo> for cuvsCagraSearchAlgo {
    fn from(v: SearchAlgo) -> (r: cuvsCagraSearchAlgo) {
        match v {
            SearchAlgo::SingleCta => cuvsCagraSearchAlgo::SINGLE_CTA,
            SearchAlgo::MultiCta => cuvsCagraSearchAlgo::MULTI_CTA,
            SearchAlgo::MultiKernel => cuvsCagraSearchAlgo::MULTI_KERNEL,
            SearchAlgo::Auto => cuvsCagraSearchAlgo::AUTO,
        }
    }
}

impl vstd::std_specs::convert::FromSpecImpl<cuvsCagraSearchAlgo> for SearchAlgo {
    open spec fn obeys_from_spec() -> bool {
        true
    }

    open spec fn from_spec(v: cuvsCagraSearchAlgo) -> SearchAlgo {
        SearchAlgo::of_code(v)
    }
}

impl From<cuvsCagraSearchAlgo> for SearchAlgo {
    fn from(v: cuvsCagraSearchAlgo) -> (r: SearchAlgo) {
        match v {
            cuvsCagraSearchAlgo::SINGLE_CTA => SearchAlgo::SingleCta,
            cuvsCagraSearchAlgo::MULTI_CTA => SearchAlgo::MultiCta,
            cuvsCagraSearchAlgo::MULTI_KERNEL => SearchAlgo::MultiKernel,
            cuvsCagraSearchAlgo::AUTO => SearchAlgo::Auto,
        }
    }
}

/// Hash-table mode used during search.
#[derive(Debug, Copy, Clone, Hash, PartialEq, Eq, Structural)]
#[non_exhaustive]
pub enum HashMode {
    /// Standard hash table.
    Hash,
    /// Small hash table optimised for low memory.
    Small,
    /// Automatically select the best mode.
    Auto,
}

impl HashMode {
    /// The C library's name of the choice.
    pub open spec fn code(self) -> cuvsCagraHashMode {
        match self {
            HashMode::Hash => cuvsCagraHashMode::HASH,
            HashMode::Small => cuvsCagraHashMode::SMALL,
            HashMode::Auto => cuvsCagraHashMode::AUTO_HASH,
        }
    }

    /// The choice of a C name.
    pub open spec fn of_code(code: cuvsCagraHashMode) -> HashMode {
        match code {
            cuvsCagraHashMode::HASH => HashMode::Hash,
            cuvsCagraHashMode::SMALL => HashMode::Small,
            cuvsCagraHashMode::AUTO_HASH => HashMode::Auto,
        }
    }
}

impl vstd::std_specs::convert::FromSpecImpl<HashMode> for cuvsCagraHashMode {
    open spec fn obeys_from_spec() -> bool {
        true
    }

    open spec fn from_spec(v: HashMode) -> cuvsCagraHashMode {
        v.code()
    }
}

impl From<HashMode> for cuvsCagraHashMode {
    fn from(v: HashMode) -> (r: cuvsCagraHashMode) {
        match v {
            HashMode::Hash => cuvsCagraHashMode::HASH,
            HashMode::Small => cuvsCagraHashMode::SMALL,
            HashMode::Auto => cuvsCagraHashMode::AUTO_HASH,
        }
    }
}

impl vstd::std_specs::convert::FromSpecImpl<cuvsCagraHashMode> for HashMode {
    open spec fn obeys_from_spec() -> bool {
        true
    }

    open spec fn from_spec(v: cuvsCagraHashMode) -> HashMode {
        HashMode::of_code(v)
    }
}

impl From<cuvsCagraHashMode> for HashMode {
    fn from(v: cuvsCagraHashMode) -> (r: HashMode) {
        match v {
            cuvsCagraHashMode::HASH => HashMode::Hash,
            cuvsCagraHashMode::SMALL => HashMode::Small,
            cuvsCagraHashMode::AUTO_HASH => HashMode::Auto,
        }
    }
}

/// Rule for choosing CAGRA graph parameters from HNSW-like inputs.
#[derive(Debug, Copy, Clone, Hash, PartialEq, Eq, Structural)]
#[non_exhaustive]
pub enum HnswHeuristicType {
    /// Produce a graph with search performance similar to an HNSW graph.
    SimilarSearchPerformance,
    /// Produce a graph with the same binary size as the equivalent HNSW graph.
    SameGraphFootprint,
}

impl HnswHeuristicType {
    /// The C library's name of the choice.
    pub open spec fn code(self) -> cuvsCagraHnswHeuristicType {
        match self {
            HnswHeuristicType::SimilarSearchPerformance => cuvsCagraHnswHeuristicType::CUVS_CAGRA_HEURISTIC_SIMILAR_SEARCH_PERFORMANCE,
            HnswHeuristicType::SameGraphFootprint => cuvsCagraHnswHeuristicType::CUVS_CAGRA_HEURISTIC_SAME_GRAPH_FOOTPRINT,
        }
    }

    /// The choice of a C name.
    pub open spec fn of_code(code: cuvsCagraHnswHeuristicType) -> HnswHeuristicType {
        match code {
            cuvsCagraHnswHeuristicType::CUVS_CAGRA_HEURISTIC_SIMILAR_SEARCH_PERFORMANCE => HnswHeuristicType::SimilarSearchPerformance,
            cuvsCagraHnswHeuristicType::CUVS_CAGRA_HEURISTIC_SAME_GRAPH_FOOTPRINT => HnswHeuristicType::SameGraphFootprint,
        }
    }
}

impl vstd::std_specs::convert::FromSpecImpl<HnswHeuristicType> for cuvsCagraHnswHeuristicType {
    open spec fn obeys_from_spec() -> bool {
        true
    }

    open spec fn from_spec(v: HnswHeuristicType) -> cuvsCagraHnswHeuristicType {
        v.code()
    }
}

impl From<HnswHeuristicType> for cuvsCagraHnswHeuristicType {
    fn from(v: HnswHeuristicType) -> (r: cuvsCagraHnswHeuristicType) {
        match v {
            HnswHeuristicType::SimilarSearchPerformance => cuvsCagraHnswHeuristicType::CUVS_CAGRA_HEURISTIC_SIMILAR_SEARCH_PERFORMANCE,
            HnswHeuristicType::SameGraphFootprint => cuvsCagraHnswHeuristicType::CUVS_CAGRA_HEURISTIC_SAME_GRAPH_FOOTPRINT,
        }
    }
}

impl vstd::std_specs::convert::FromSpecImpl<cuvsCagraHnswHeuristicType> for HnswHeuristicType {
    open spec fn obeys_from_spec() -> bool {
        true
    }

    open spec fn from_spec(v: cuvsCagraHnswHeuristicType) -> HnswHeuristicType {
        HnswHeuristicType::of_code(v)
    }
}

impl From<cuvsCagraHnswHeuristicType> for HnswHeuristicType {
    fn from(v: cuvsCagraHnswHeuristicType) -> (r: HnswHeuristicType) {
        match v {
            cuvsCagraHnswHeuristicType::CUVS_CAGRA_HEURISTIC_SIMILAR_SEARCH_PERFORMANCE => HnswHeuristicType::SimilarSearchPerformance,
            cuvsCagraHnswHeuristicType::CUVS_CAGRA_HEURISTIC_SAME_GRAPH_FOOTPRINT => HnswHeuristicType::SameGraphFootprint,
        }
    }
}

/// Every choice, and every C name of one, survives the way there and back.
pub proof fn choices_round_trip()
    ensures
        forall|v: GraphBuildAlgo| GraphBuildAlgo::of_code(#[trigger] v.code()) == v,
        forall|c: cuvsCagraGraphBuildAlgo| (#[trigger] GraphBuildAlgo::of_code(c)).code() == c,
        forall|v: SearchAlgo| SearchAlgo::of_code(#[trigger] v.code()) == v,
        forall|c: cuvsCagraSearchAlgo| (#[trigger] SearchAlgo::of_code(c)).code() == c,
        forall|v: HashMode| HashMode::of_code(#[trigger] v.code()) == v,
        forall|c: cuvsCagraHashMode| (#[trigger] HashMode::of_code(c)).code() == c,
        forall|v: HnswHeuristicType| HnswHeuristicType::of_code(#[trigger] v.code()) == v,
        forall|c: cuvsCagraHnswHeuristicType| (#[trigger] HnswHeuristicType::of_code(c)).code() == c,
{
}

/// Error type for CAGRA operations.
#[derive(Debug)]
pub enum CagraError {
    /// The C library reported a failure.
    Library(LibraryError),
    /// Tensor conversion into DLPack metadata failed.
    DLPack(DLPackError),
    /// A file path contained an interior zero byte.
    InvalidPath(NulError),
    /// A parameter value failed validation.
    Validation(String),
}

impl CagraError {
    /// The message of the error.
    pub open spec fn message(self) -> Seq<char> {
        match self {
            CagraError::Library(e) => e.0@,
            CagraError::DLPack(e) => e.message(),
            CagraError::InvalidPath(_) => "path contains interior NUL byte"@,
            CagraError::Validation(text) => "invalid parameter: "@ + text@,
        }
    }

    pub fn to_string(&self) -> (r: String)
        ensures
            r@ == self.message(),
    {
        match self {
            CagraError::Library(e) => e.to_string(),
            CagraError::DLPack(e) => e.to_string(),
            CagraError::InvalidPath(_) => String::from_str("path contains interior NUL byte"),
            CagraError::Validation(text) => with_text("invalid parameter: ", text.as_str()),
        }
    }
}

impl vstd::std_specs::convert::FromSpecImpl<LibraryError> for CagraError {
    open spec fn obeys_from_spec() -> bool {
        true
    }

    open spec fn from_spec(e: LibraryError) -> CagraError {
        CagraError::Library(e)
    }
}

impl From<LibraryError> for CagraError {
    fn from(e: LibraryError) -> (r: CagraError) {
        CagraError::Library(e)
    }
}

impl vstd::std_specs::convert::FromSpecImpl<DLPackError> for CagraError {
    open spec fn obeys_from_spec() -> bool {
        true
    }

    open spec fn from_spec(e: DLPackError) -> CagraError {
        CagraError::DLPack(e)
    }
}

impl From<DLPackError> for CagraError {
    fn from(e: DLPackError) -> (r: CagraError) {
        CagraError::DLPack(e)
    }
}

impl vstd::std_specs::convert::FromSpecImpl<NulError> for CagraError {
    open spec fn obeys_from_spec() -> bool {
        true
    }

    open spec fn from_spec(e: NulError) -> CagraError {
        CagraError::InvalidPath(e)
    }
}

impl From<NulError> for CagraError {
    fn from(e: NulError) -> (r: CagraError) {
        CagraError::InvalidPath(e)
    }
}

impl vstd::std_specs::convert::FromSpecImpl<ViewError> for CagraError {
    open spec fn obeys_from_spec() -> bool {
        true
    }

    open spec fn from_spec(e: ViewError) -> CagraError {
        match e {
            ViewError::Library(e) => CagraError::Library(e),
            ViewError::DLPack(e) => CagraError::DLPack(e),
        }
    }
}

impl From<ViewError> for CagraError {
    fn from(e: ViewError) -> (r: CagraError) {
        match e {
            ViewError::Library(e) => CagraError::Library(e),
            ViewError::DLPack(e) => CagraError::DLPack(e),
        }
    }
}

} // verus!

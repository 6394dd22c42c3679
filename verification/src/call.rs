//! The calls that the cuVS C library is asked to make.
//!
//! An operation of this crate checks its arguments and gives back the call that
//! it comes down to; whoever holds the C library performs the call and reports
//! the status.

use vstd::prelude::*;

use crate::binary::Binary32;
use crate::dlpack::{DLTensorView, DLTensorViewMut, ManagedTensorRef};
use crate::ffi::{
    cuvsCagraGraphBuildAlgo, cuvsCagraHnswHeuristicType, cuvsDistanceType, cuvsFilterType, cuvsLogLevel_t,
};
use crate::path::CPath;

verus! {

/// An index type of the C library, with its own constructor and destructor.
#[derive(Debug, Copy, Clone, PartialEq, Eq, Structural)]
pub enum IndexKind {
    BruteForce,
    Cagra,
    IvfFlat,
    IvfPq,
    Vamana,
}

/// A parameter record of the C library, with its own constructor and destructor.
#[derive(Debug, Copy, Clone, PartialEq, Eq, Structural)]
pub enum ParamsKind {
    KMeans,
    CagraCompression,
    Ace,
    CagraIndex,
    CagraSearch,
    CagraExtend,
    IvfFlatIndex,
    IvfFlatSearch,
    IvfPqIndex,
    IvfPqSearch,
    VamanaIndex,
}

/// A number that an index reports of itself.
#[derive(Debug, Copy, Clone, PartialEq, Eq, Structural)]
pub enum Figure {
    CagraDims,
    CagraSize,
    CagraGraphDegree,
    IvfFlatNLists,
    IvfFlatDim,
    IvfPqNLists,
    IvfPqDim,
    IvfPqSize,
    IvfPqPqDim,
    IvfPqPqBits,
    IvfPqPqLen,
    VamanaDims,
}

/// A tensor that an index shows of itself.
#[derive(Debug, Copy, Clone, PartialEq, Eq, Structural)]
pub enum Inside {
    CagraDataset,
    CagraGraph,
    IvfFlatCenters,
    IvfPqCenters,
    IvfPqCentersPadded,
    IvfPqPqCenters,
    IvfPqCentersRot,
    IvfPqRotationMatrix,
    IvfPqListSizes,
    /// The row numbers in the list of this label.
    IvfPqListIndices(u32),
}

/// A filter as a search call receives it: the packed words, if any, and how
/// they are to be read.
#[derive(Debug)]
pub struct cuvsFilter<'a> {
    pub words: Option<ManagedTensorRef<'a>>,
    pub type_: cuvsFilterType,
}

/// A call that fills a fresh index.
#[derive(Debug)]
pub enum Work<'a> {
    BruteForceBuild { res: usize, dataset: DLTensorView<'a>, metric: cuvsDistanceType, metric_arg: Binary32 },
    BruteForceDeserialize { res: usize, path: CPath },
    CagraBuild { res: usize, params: usize, dataset: DLTensorView<'a> },
    CagraFromArgs {
        res: usize,
        metric: cuvsDistanceType,
        graph: DLTensorView<'a>,
        dataset: DLTensorView<'a>,
    },
    CagraDeserialize { res: usize, path: CPath },
    CagraMerge { res: usize, params: usize, indices: Vec<usize>, filter: cuvsFilter<'a> },
    IvfFlatBuild { res: usize, params: usize, dataset: DLTensorView<'a> },
    IvfFlatDeserialize { res: usize, path: CPath },
    IvfPqBuild { res: usize, params: usize, dataset: DLTensorView<'a> },
    IvfPqBuildPrecomputed {
        res: usize,
        params: usize,
        dim: u32,
        pq_centers: DLTensorView<'a>,
        centers_padded: DLTensorView<'a>,
        centers_rot: DLTensorView<'a>,
        rotation_matrix: DLTensorView<'a>,
    },
    IvfPqDeserialize { res: usize, path: CPath },
    VamanaBuild { res: usize, params: usize, dataset: DLTensorView<'a> },
}

impl<'a> Work<'a> {
    /// The type of the index that the call fills.
    pub open spec fn index_kind(self) -> IndexKind {
        match self {
            Work::BruteForceBuild { .. } => IndexKind::BruteForce,
            Work::BruteForceDeserialize { .. } => IndexKind::BruteForce,
            Work::CagraBuild { .. } => IndexKind::Cagra,
            Work::CagraFromArgs { .. } => IndexKind::Cagra,
            Work::CagraDeserialize { .. } => IndexKind::Cagra,
            Work::CagraMerge { .. } => IndexKind::Cagra,
            Work::IvfFlatBuild { .. } => IndexKind::IvfFlat,
            Work::IvfFlatDeserialize { .. } => IndexKind::IvfFlat,
            Work::IvfPqBuild { .. } => IndexKind::IvfPq,
            Work::IvfPqBuildPrecomputed { .. } => IndexKind::IvfPq,
            Work::IvfPqDeserialize { .. } => IndexKind::IvfPq,
            Work::VamanaBuild { .. } => IndexKind::Vamana,
        }
    }

    pub fn kind(&self) -> (r: IndexKind)
        ensures
            r == self.index_kind(),
    {
        match self {
            Work::BruteForceBuild { .. } => IndexKind::BruteForce,
            Work::BruteForceDeserialize { .. } => IndexKind::BruteForce,
            Work::CagraBuild { .. } => IndexKind::Cagra,
            Work::CagraFromArgs { .. } => IndexKind::Cagra,
            Work::CagraDeserialize { .. } => IndexKind::Cagra,
            Work::CagraMerge { .. } => IndexKind::Cagra,
            Work::IvfFlatBuild { .. } => IndexKind::IvfFlat,
            Work::IvfFlatDeserialize { .. } => IndexKind::IvfFlat,
            Work::IvfPqBuild { .. } => IndexKind::IvfPq,
            Work::IvfPqBuildPrecomputed { .. } => IndexKind::IvfPq,
            Work::IvfPqDeserialize { .. } => IndexKind::IvfPq,
            Work::VamanaBuild { .. } => IndexKind::Vamana,
        }
    }
}

/// A call on something that exists already.
#[derive(Debug)]
#[allow(inconsistent_fields)]
pub enum Call<'a> {
    VersionGet,
    LogLevelGet,
    LogLevelSet { level: cuvsLogLevel_t },
    ResourcesCreate,
    ResourcesDestroy { res: usize },
    StreamSet { res: usize, stream: usize },
    StreamGet { res: usize },
    StreamSync { res: usize },
    DeviceIdGet { res: usize },
    ParamsDestroy { kind: ParamsKind, params: usize },
    AceParamsSetBuildDir { params: usize, path: CPath },
    /// Writes two fields of a CAGRA index record.
    CagraIndexParamsRestore {
        params: usize,
        graph_build_params: usize,
        build_algo: cuvsCagraGraphBuildAlgo,
    },
    CagraIndexParamsFromHnswParams {
        params: usize,
        n_rows: i64,
        dim: i64,
        m: i32,
        ef_construction: i32,
        heuristic: cuvsCagraHnswHeuristicType,
        metric: cuvsDistanceType,
    },
    IndexDestroy { kind: IndexKind, index: usize },
    FigureGet { index: usize, figure: Figure },
    TensorGet { index: usize, tensor: Inside },
    PairwiseDistance {
        res: usize,
        x: DLTensorView<'a>,
        y: DLTensorView<'a>,
        distances: DLTensorViewMut<'a>,
        metric: cuvsDistanceType,
        metric_arg: Binary32,
    },
    KMeansFit {
        res: usize,
        params: usize,
        x: DLTensorView<'a>,
        sample_weight: Option<DLTensorView<'a>>,
        centroids: DLTensorViewMut<'a>,
    },
    KMeansPredict {
        res: usize,
        params: usize,
        x: DLTensorView<'a>,
        sample_weight: Option<DLTensorView<'a>>,
        centroids: DLTensorView<'a>,
        labels: DLTensorViewMut<'a>,
        normalize_weight: bool,
    },
    KMeansClusterCost { res: usize, x: DLTensorView<'a>, centroids: DLTensorView<'a> },
    BruteForceSearch {
        res: usize,
        index: usize,
        queries: DLTensorView<'a>,
        neighbors: DLTensorViewMut<'a>,
        distances: DLTensorViewMut<'a>,
        filter: cuvsFilter<'a>,
    },
    BruteForceSerialize { res: usize, path: CPath, index: usize },
    CagraSearch {
        res: usize,
        params: usize,
        index: usize,
        queries: DLTensorView<'a>,
        neighbors: DLTensorViewMut<'a>,
        distances: DLTensorViewMut<'a>,
        filter: cuvsFilter<'a>,
    },
    CagraExtend { res: usize, params: usize, additional_dataset: DLTensorView<'a>, index: usize },
    CagraSerialize { res: usize, path: CPath, index: usize, include_dataset: bool },
    CagraSerializeToHnswlib { res: usize, path: CPath, index: usize },
    IvfFlatSearch {
        res: usize,
        params: usize,
        index: usize,
        queries: DLTensorView<'a>,
        neighbors: DLTensorViewMut<'a>,
        distances: DLTensorViewMut<'a>,
        filter: cuvsFilter<'a>,
    },
    IvfFlatExtend { res: usize, new_vectors: DLTensorView<'a>, new_indices: DLTensorView<'a>, index: usize },
    IvfFlatSerialize { res: usize, path: CPath, index: usize },
    IvfPqSearch {
        res: usize,
        params: usize,
        index: usize,
        queries: DLTensorView<'a>,
        neighbors: DLTensorViewMut<'a>,
        distances: DLTensorViewMut<'a>,
    },
    IvfPqExtend { res: usize, new_vectors: DLTensorView<'a>, new_indices: DLTensorView<'a>, index: usize },
    IvfPqTransform {
        res: usize,
        index: usize,
        input_dataset: DLTensorView<'a>,
        output_labels: DLTensorViewMut<'a>,
        output_dataset: DLTensorViewMut<'a>,
    },
    IvfPqSerialize { res: usize, path: CPath, index: usize },
    IvfPqUnpackContiguousListData {
        res: usize,
        index: usize,
        out_codes: DLTensorViewMut<'a>,
        label: u32,
        offset: u32,
    },
    VamanaSerialize { res: usize, path: CPath, index: usize, include_dataset: bool },
}

} // verus!

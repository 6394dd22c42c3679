//! The data of the cuVS C interface: its enumerations, parameter records and
//! DLPack structures, with every pointer held as an address.
//!
//! Names follow the C headers.

use vstd::prelude::*;

use crate::binary::{Binary32, Binary64, Shown32};

verus! {

/// Status of a C call.
#[derive(Debug, Copy, Clone, Hash, PartialEq, Eq, Structural)]
pub enum cuvsError_t {
    CUVS_ERROR,
    CUVS_SUCCESS,
}

/// Verbosity of the C library's log.
#[derive(Debug, Copy, Clone, Hash, PartialEq, Eq, Structural)]
pub enum cuvsLogLevel_t {
    CUVS_LOG_LEVEL_TRACE,
    CUVS_LOG_LEVEL_DEBUG,
    CUVS_LOG_LEVEL_INFO,
    CUVS_LOG_LEVEL_WARN,
    CUVS_LOG_LEVEL_ERROR,
    CUVS_LOG_LEVEL_CRITICAL,
    CUVS_LOG_LEVEL_OFF,
}

/// Distance metric.
#[derive(Debug, Copy, Clone, Hash, PartialEq, Eq, Structural)]
pub enum cuvsDistanceType {
    L2Expanded,
    L2SqrtExpanded,
    CosineExpanded,
    L1,
    L2Unexpanded,
    L2SqrtUnexpanded,
    InnerProduct,
    Linf,
    Canberra,
    LpUnexpanded,
    CorrelationExpanded,
    JaccardExpanded,
    HellingerExpanded,
    Haversine,
    BrayCurtis,
    JensenShannon,
    HammingUnexpanded,
    KLDivergence,
    RusselRaoExpanded,
    DiceExpanded,
    BitwiseHamming,
    Precomputed,
}

/// Choice of the initial centers in k-means.
#[derive(Debug, Copy, Clone, Hash, PartialEq, Eq, Structural)]
pub enum cuvsKMeansInitMethod {
    KMeansPlusPlus,
    Random,
    Array,
}

/// Algorithm that builds the CAGRA graph.
#[derive(Debug, Copy, Clone, Hash, PartialEq, Eq, Structural)]
pub enum cuvsCagraGraphBuildAlgo {
    AUTO_SELECT,
    IVF_PQ,
    NN_DESCENT,
    ITERATIVE_CAGRA_SEARCH,
    ACE,
}

/// CAGRA search kernel.
#[derive(Debug, Copy, Clone, Hash, PartialEq, Eq, Structural)]
pub enum cuvsCagraSearchAlgo {
    SINGLE_CTA,
    MULTI_CTA,
    MULTI_KERNEL,
    AUTO,
}

/// CAGRA hash-table mode.
#[derive(Debug, Copy, Clone, Hash, PartialEq, Eq, Structural)]
pub enum cuvsCagraHashMode {
    HASH,
    SMALL,
    AUTO_HASH,
}

/// Rule by which CAGRA parameters follow from HNSW parameters.
#[derive(Debug, Copy, Clone, Hash, PartialEq, Eq, Structural)]
pub enum cuvsCagraHnswHeuristicType {
    CUVS_CAGRA_HEURISTIC_SIMILAR_SEARCH_PERFORMANCE,
    CUVS_CAGRA_HEURISTIC_SAME_GRAPH_FOOTPRINT,
}

/// How IVF-PQ codebooks are made.
#[derive(Debug, Copy, Clone, Hash, PartialEq, Eq, Structural)]
pub enum cuvsIvfPqCodebookGen {
    CUVS_IVF_PQ_CODEBOOK_GEN_PER_SUBSPACE,
    CUVS_IVF_PQ_CODEBOOK_GEN_PER_CLUSTER,
}

/// Layout of IVF-PQ list data.
#[derive(Debug, Copy, Clone, Hash, PartialEq, Eq, Structural)]
pub enum cuvsIvfPqListLayout {
    CUVS_IVF_PQ_LIST_LAYOUT_FLAT,
    CUVS_IVF_PQ_LIST_LAYOUT_INTERLEAVED,
}

/// Meaning of the words of a search filter.
#[derive(Debug, Copy, Clone, Hash, PartialEq, Eq, Structural)]
pub enum cuvsFilterType {
    NO_FILTER,
    BITSET,
    BITMAP,
}

/// Element type in CUDA's numbering.
#[derive(Debug, Copy, Clone, Hash, PartialEq, Eq, Structural)]
pub enum cudaDataType_t {
    CUDA_R_32F,
    CUDA_R_16F,
    CUDA_R_8U,
    CUDA_R_8I,
    /// A code that no setting of this library selects.
    Other(u32),
}

/// Device class of a tensor.
#[derive(Debug, Copy, Clone, Hash, PartialEq, Eq, Structural)]
pub enum DLDeviceType {
    kDLCPU,
    kDLCUDA,
    kDLCUDAHost,
    kDLOpenCL,
    kDLVulkan,
    kDLMetal,
    kDLVPI,
    kDLROCM,
    kDLROCMHost,
    kDLExtDev,
    kDLCUDAManaged,
    kDLOneAPI,
    kDLWebGPU,
    kDLHexagon,
    kDLMAIA,
}

/// Device of a tensor.
#[derive(Debug, Copy, Clone, Hash, PartialEq, Eq, Structural)]
pub struct DLDevice {
    pub device_type: DLDeviceType,
    pub device_id: i32,
}

/// Class of an element type.
#[derive(Debug, Copy, Clone, Hash, PartialEq, Eq, Structural)]
pub enum DLDataTypeCode {
    kDLInt,
    kDLUInt,
    kDLFloat,
    kDLOpaqueHandle,
    kDLBfloat,
    kDLComplex,
    kDLBool,
}

impl DLDataTypeCode {
    /// The code that DLPack gives the class.
    pub open spec fn number(self) -> u8 {
        match self {
            DLDataTypeCode::kDLInt => 0,
            DLDataTypeCode::kDLUInt => 1,
            DLDataTypeCode::kDLFloat => 2,
            DLDataTypeCode::kDLOpaqueHandle => 3,
            DLDataTypeCode::kDLBfloat => 4,
            DLDataTypeCode::kDLComplex => 5,
            DLDataTypeCode::kDLBool => 6,
        }
    }

    pub fn as_u8(self) -> (r: u8)
        ensures
            r == self.number(),
    {
        match self {
            DLDataTypeCode::kDLInt => 0,
            DLDataTypeCode::kDLUInt => 1,
            DLDataTypeCode::kDLFloat => 2,
            DLDataTypeCode::kDLOpaqueHandle => 3,
            DLDataTypeCode::kDLBfloat => 4,
            DLDataTypeCode::kDLComplex => 5,
            DLDataTypeCode::kDLBool => 6,
        }
    }
}

/// Element type of a tensor.
#[derive(Debug, Copy, Clone, Hash, PartialEq, Eq, Structural)]
pub struct DLDataType {
    pub code: u8,
    pub bits: u8,
    pub lanes: u16,
}

/// The scalar element type of a class and width.
pub open spec fn scalar(code: DLDataTypeCode, bits: u8) -> DLDataType {
    DLDataType { code: code.number(), bits, lanes: 1 }
}

pub fn scalar_type(code: DLDataTypeCode, bits: u8) -> (r: DLDataType)
    ensures
        r == scalar(code, bits),
{
    DLDataType { code: code.as_u8(), bits, lanes: 1 }
}

/// A tensor as a C function receives it. The slices stand for the pointers to
/// the dimension arrays; no strides stand for the null pointer.
#[derive(Debug, Copy, Clone)]
pub struct DLTensor<'a> {
    pub data: usize,
    pub device: DLDevice,
    pub ndim: i32,
    pub dtype: DLDataType,
    pub shape: &'a [i64],
    pub strides: Option<&'a [i64]>,
    pub byte_offset: u64,
}

/// A tensor with its manager; the two addresses are zero for a borrowed tensor.
#[derive(Debug, Copy, Clone)]
pub struct DLManagedTensor<'a> {
    pub dl_tensor: DLTensor<'a>,
    pub manager_ctx: usize,
    pub deleter: usize,
}

/// A parameter record fresh from its C constructor: where it lies and what it
/// holds there.
#[derive(Debug)]
pub struct Created<R> {
    pub handle: usize,
    pub record: R,
}

/// Parameters of k-means.
#[derive(Debug, Copy, Clone)]
pub struct cuvsKMeansParams {
    pub metric: cuvsDistanceType,
    pub n_clusters: i32,
    pub init: cuvsKMeansInitMethod,
    pub max_iter: i32,
    pub tol: Binary64,
    pub n_init: i32,
    pub oversampling_factor: Binary64,
    pub batch_samples: i32,
    pub batch_centroids: i32,
    pub inertia_check: bool,
    pub hierarchical: bool,
    pub hierarchical_n_iters: i32,
    pub streaming_batch_size: i64,
}

/// Parameters of vector-product quantization in CAGRA.
#[derive(Debug, Copy, Clone)]
pub struct cuvsCagraCompressionParams {
    pub pq_bits: u32,
    pub pq_dim: u32,
    pub vq_n_centers: u32,
    pub kmeans_n_iters: u32,
    pub vq_kmeans_trainset_fraction: Binary64,
    pub pq_kmeans_trainset_fraction: Binary64,
}

/// Parameters of the ACE graph build.
#[derive(Debug, Copy, Clone)]
pub struct cuvsAceParams {
    pub npartitions: usize,
    pub ef_construction: usize,
    pub build_dir: usize,
    pub use_disk: bool,
    pub max_host_memory_gb: Binary64,
    pub max_gpu_memory_gb: Binary64,
}

/// Parameters of an IVF-PQ build.
#[derive(Debug, Copy, Clone)]
pub struct cuvsIvfPqIndexParams {
    pub metric: cuvsDistanceType,
    pub metric_arg: Binary32,
    pub add_data_on_build: bool,
    pub n_lists: u32,
    pub kmeans_n_iters: u32,
    pub kmeans_trainset_fraction: Binary64,
    pub pq_bits: u32,
    pub pq_dim: u32,
    pub codebook_kind: cuvsIvfPqCodebookGen,
    pub force_random_rotation: bool,
    pub conservative_memory_allocation: bool,
    pub max_train_points_per_pq_code: u32,
    pub codes_layout: cuvsIvfPqListLayout,
}

/// Parameters of an IVF-PQ search.
#[derive(Debug, Copy, Clone)]
pub struct cuvsIvfPqSearchParams {
    pub n_probes: u32,
    pub lut_dtype: cudaDataType_t,
    pub internal_distance_dtype: cudaDataType_t,
    pub coarse_search_dtype: cudaDataType_t,
    pub max_internal_batch_size: u32,
    pub preferred_shmem_carveout: Binary64,
}

/// IVF-PQ build and search parameters together, by their addresses.
#[derive(Debug, Copy, Clone)]
pub struct cuvsIvfPqParams {
    pub ivf_pq_build_params: usize,
    pub ivf_pq_search_params: usize,
    pub refinement_rate: Binary32,
}

/// Parameters of a CAGRA build.
#[derive(Debug, Copy, Clone)]
pub struct cuvsCagraIndexParams {
    pub metric: cuvsDistanceType,
    pub intermediate_graph_degree: usize,
    pub graph_degree: usize,
    pub build_algo: cuvsCagraGraphBuildAlgo,
    pub nn_descent_niter: usize,
    pub compression: usize,
    pub graph_build_params: usize,
}

/// Parameters of a CAGRA search.
#[derive(Debug, Copy, Clone)]
pub struct cuvsCagraSearchParams {
    pub max_queries: usize,
    pub itopk_size: usize,
    pub max_iterations: usize,
    pub algo: cuvsCagraSearchAlgo,
    pub team_size: usize,
    pub search_width: usize,
    pub min_iterations: usize,
    pub thread_block_size: usize,
    pub hashmap_mode: cuvsCagraHashMode,
    pub hashmap_min_bitlen: usize,
    pub hashmap_max_fill_rate: Binary32,
    pub num_random_samplings: u32,
    pub rand_xor_mask: u64,
    pub persistent: bool,
    pub persistent_lifetime: Binary32,
    pub persistent_device_usage: Binary32,
}

/// Parameters of a CAGRA extension.
#[derive(Debug, Copy, Clone)]
pub struct cuvsCagraExtendParams {
    pub max_chunk_size: u32,
}

/// Parameters of an IVF-Flat build.
#[derive(Debug, Copy, Clone)]
pub struct cuvsIvfFlatIndexParams {
    pub metric: cuvsDistanceType,
    pub metric_arg: Binary32,
    pub add_data_on_build: bool,
    pub n_lists: u32,
    pub kmeans_n_iters: u32,
    pub kmeans_trainset_fraction: Binary64,
    pub adaptive_centers: bool,
    pub conservative_memory_allocation: bool,
}

/// Parameters of an IVF-Flat search.
#[derive(Debug, Copy, Clone)]
pub struct cuvsIvfFlatSearchParams {
    pub n_probes: u32,
}

/// Parameters of a Vamana build.
#[derive(Debug)]
pub struct cuvsVamanaIndexParams {
    pub metric: cuvsDistanceType,
    pub graph_degree: u32,
    pub visited_size: u32,
    pub vamana_iters: Shown32,
    pub alpha: Binary32,
    pub max_fraction: Binary32,
    pub batch_base: Binary32,
    pub queue_size: u32,
    pub reverse_batchsize: u32,
}

} // verus!

//! The C names of the choices.
//!
//! Each choice has the C name of the same choice, and each C name is read as
//! the choice of that name.

use vstd::prelude::*;

use crate::binary::Binary32;
use crate::call::{IndexKind, Work};
use crate::cluster::kmeans::params::KMeansInitMethod;
use crate::distance::DistanceType;
use crate::ffi::{
    cudaDataType_t, cuvsCagraGraphBuildAlgo, cuvsCagraHashMode, cuvsCagraHnswHeuristicType, cuvsCagraSearchAlgo,
    cuvsDistanceType, cuvsIvfPqCodebookGen, cuvsIvfPqListLayout, cuvsKMeansInitMethod,
};
use crate::neighbors::cagra::{GraphBuildAlgo, HashMode, HnswHeuristicType, SearchAlgo};
use crate::neighbors::ivf_pq::{CoarseSearchDType, CodebookGen, InternalDistanceDType, ListLayout, LutDType};

verus! {

/// Every metric goes to the C name of the same metric.
pub proof fn metrics_keep_their_names(metric: DistanceType, name: cuvsDistanceType)
    requires
        call_ensures(<cuvsDistanceType as From<DistanceType>>::from, (metric,), name),
    ensures
        name == metric.code(),
        metric is L2Expanded <==> name == cuvsDistanceType::L2Expanded,
        metric is L2SqrtExpanded <==> name == cuvsDistanceType::L2SqrtExpanded,
        metric is CosineExpanded <==> name == cuvsDistanceType::CosineExpanded,
        metric is L1 <==> name == cuvsDistanceType::L1,
        metric is L2Unexpanded <==> name == cuvsDistanceType::L2Unexpanded,
        metric is L2SqrtUnexpanded <==> name == cuvsDistanceType::L2SqrtUnexpanded,
        metric is InnerProduct <==> name == cuvsDistanceType::InnerProduct,
        metric is Linf <==> name == cuvsDistanceType::Linf,
        metric is Canberra <==> name == cuvsDistanceType::Canberra,
        metric is LpUnexpanded <==> name == cuvsDistanceType::LpUnexpanded,
        metric is CorrelationExpanded <==> name == cuvsDistanceType::CorrelationExpanded,
        metric is JaccardExpanded <==> name == cuvsDistanceType::JaccardExpanded,
        metric is HellingerExpanded <==> name == cuvsDistanceType::HellingerExpanded,
        metric is Haversine <==> name == cuvsDistanceType::Haversine,
        metric is BrayCurtis <==> name == cuvsDistanceType::BrayCurtis,
        metric is JensenShannon <==> name == cuvsDistanceType::JensenShannon,
        metric is HammingUnexpanded <==> name == cuvsDistanceType::HammingUnexpanded,
        metric is KLDivergence <==> name == cuvsDistanceType::KLDivergence,
        metric is RusselRaoExpanded <==> name == cuvsDistanceType::RusselRaoExpanded,
        metric is DiceExpanded <==> name == cuvsDistanceType::DiceExpanded,
        metric is BitwiseHamming <==> name == cuvsDistanceType::BitwiseHamming,
        metric is Precomputed <==> name == cuvsDistanceType::Precomputed,
{
}

/// Every C name of a metric is read as the metric of that name; the Minkowski
/// exponent is then two.
pub proof fn metric_names_are_read_as_they_stand(name: cuvsDistanceType, metric: DistanceType)
    requires
        call_ensures(<DistanceType as From<cuvsDistanceType>>::from, (name,), metric),
    ensures
        metric == DistanceType::of_code(name),
        name == cuvsDistanceType::L2Expanded <==> metric is L2Expanded,
        name == cuvsDistanceType::L2SqrtExpanded <==> metric is L2SqrtExpanded,
        name == cuvsDistanceType::CosineExpanded <==> metric is CosineExpanded,
        name == cuvsDistanceType::L1 <==> metric is L1,
        name == cuvsDistanceType::L2Unexpanded <==> metric is L2Unexpanded,
        name == cuvsDistanceType::L2SqrtUnexpanded <==> metric is L2SqrtUnexpanded,
        name == cuvsDistanceType::InnerProduct <==> metric is InnerProduct,
        name == cuvsDistanceType::Linf <==> metric is Linf,
        name == cuvsDistanceType::Canberra <==> metric is Canberra,
        name == cuvsDistanceType::LpUnexpanded <==> metric is LpUnexpanded,
        name == cuvsDistanceType::CorrelationExpanded <==> metric is CorrelationExpanded,
        name == cuvsDistanceType::JaccardExpanded <==> metric is JaccardExpanded,
        name == cuvsDistanceType::HellingerExpanded <==> metric is HellingerExpanded,
        name == cuvsDistanceType::Haversine <==> metric is Haversine,
        name == cuvsDistanceType::BrayCurtis <==> metric is BrayCurtis,
        name == cuvsDistanceType::JensenShannon <==> metric is JensenShannon,
        name == cuvsDistanceType::HammingUnexpanded <==> metric is HammingUnexpanded,
        name == cuvsDistanceType::KLDivergence <==> metric is KLDivergence,
        name == cuvsDistanceType::RusselRaoExpanded <==> metric is RusselRaoExpanded,
        name == cuvsDistanceType::DiceExpanded <==> metric is DiceExpanded,
        name == cuvsDistanceType::BitwiseHamming <==> metric is BitwiseHamming,
        name == cuvsDistanceType::Precomputed <==> metric is Precomputed,
        metric matches DistanceType::LpUnexpanded(p) ==> p.bits == 0x4000_0000,
{
}

/// The argument of the Minkowski distance is its exponent; that of every other
/// metric is the number two.
pub proof fn metrics_go_with_their_argument(metric: DistanceType, argument: Binary32)
    requires
        call_ensures(DistanceType::metric_arg, (metric,), argument),
    ensures
        argument == metric.argument(),
        metric matches DistanceType::LpUnexpanded(p) ==> argument == p,
        !(metric is LpUnexpanded) ==> argument.bits == 0x4000_0000,
{
}

/// Two metrics are equal where they are the same metric; Minkowski distances
/// where their exponents are the same number or both not numbers.
pub proof fn metrics_are_equal_by_name_and_exponent(a: DistanceType, b: DistanceType)
    ensures
        a.same(b) <==> match (a, b) {
            (DistanceType::LpUnexpanded(p), DistanceType::LpUnexpanded(q)) => (p.nan() && q.nan()) || (!p.nan()
                && !q.nan() && p.value() == q.value()),
            _ => a == b,
        },
{
}

/// Every choice of initial centers goes to the C name of the same choice.
pub proof fn init_methods_keep_their_names(choice: KMeansInitMethod, name: cuvsKMeansInitMethod)
    requires
        call_ensures(<cuvsKMeansInitMethod as From<KMeansInitMethod>>::from, (choice,), name),
    ensures
        name == choice.code(),
        choice is KMeansPlusPlus <==> name == cuvsKMeansInitMethod::KMeansPlusPlus,
        choice is Random <==> name == cuvsKMeansInitMethod::Random,
        choice is Array <==> name == cuvsKMeansInitMethod::Array,
{
}

/// Every graph-build algorithm goes to the C name of the same algorithm.
pub proof fn graph_build_algos_keep_their_names(choice: GraphBuildAlgo, name: cuvsCagraGraphBuildAlgo)
    requires
        call_ensures(<cuvsCagraGraphBuildAlgo as From<GraphBuildAlgo>>::from, (choice,), name),
    ensures
        name == choice.code(),
        choice is Auto <==> name == cuvsCagraGraphBuildAlgo::AUTO_SELECT,
        choice is IvfPq <==> name == cuvsCagraGraphBuildAlgo::IVF_PQ,
        choice is NnDescent <==> name == cuvsCagraGraphBuildAlgo::NN_DESCENT,
        choice is IterativeCagraSearch <==> name == cuvsCagraGraphBuildAlgo::ITERATIVE_CAGRA_SEARCH,
        choice is Ace <==> name == cuvsCagraGraphBuildAlgo::ACE,
{
}

/// The C names of this choice are read as they stand.
pub proof fn graph_build_algos_are_read_by_name(name: cuvsCagraGraphBuildAlgo, choice: GraphBuildAlgo)
    requires
        call_ensures(<GraphBuildAlgo as From<cuvsCagraGraphBuildAlgo>>::from, (name,), choice),
    ensures
        choice == GraphBuildAlgo::of_code(name),
        name == cuvsCagraGraphBuildAlgo::AUTO_SELECT <==> choice is Auto,
        name == cuvsCagraGraphBuildAlgo::IVF_PQ <==> choice is IvfPq,
        name == cuvsCagraGraphBuildAlgo::NN_DESCENT <==> choice is NnDescent,
        name == cuvsCagraGraphBuildAlgo::ITERATIVE_CAGRA_SEARCH <==> choice is IterativeCagraSearch,
        name == cuvsCagraGraphBuildAlgo::ACE <==> choice is Ace,
{
}

/// Every search kernel goes to the C name of the same kernel.
pub proof fn search_algos_keep_their_names(choice: SearchAlgo, name: cuvsCagraSearchAlgo)
    requires
        call_ensures(<cuvsCagraSearchAlgo as From<SearchAlgo>>::from, (choice,), name),
    ensures
        name == choice.code(),
        choice is SingleCta <==> name == cuvsCagraSearchAlgo::SINGLE_CTA,
        choice is MultiCta <==> name == cuvsCagraSearchAlgo::MULTI_CTA,
        choice is MultiKernel <==> name == cuvsCagraSearchAlgo::MULTI_KERNEL,
        choice is Auto <==> name == cuvsCagraSearchAlgo::AUTO,
{
}

/// The C names of this choice are read as they stand.
pub proof fn search_algos_are_read_by_name(name: cuvsCagraSearchAlgo, choice: SearchAlgo)
    requires
        call_ensures(<SearchAlgo as From<cuvsCagraSearchAlgo>>::from, (name,), choice),
    ensures
        choice == SearchAlgo::of_code(name),
        name == cuvsCagraSearchAlgo::SINGLE_CTA <==> choice is SingleCta,
        name == cuvsCagraSearchAlgo::MULTI_CTA <==> choice is MultiCta,
        name == cuvsCagraSearchAlgo::MULTI_KERNEL <==> choice is MultiKernel,
        name == cuvsCagraSearchAlgo::AUTO <==> choice is Auto,
{
}

/// Every hash-table mode goes to the C name of the same mode.
pub proof fn hash_modes_keep_their_names(choice: HashMode, name: cuvsCagraHashMode)
    requires
        call_ensures(<cuvsCagraHashMode as From<HashMode>>::from, (choice,), name),
    ensures
        name == choice.code(),
        choice is Hash <==> name == cuvsCagraHashMode::HASH,
        choice is Small <==> name == cuvsCagraHashMode::SMALL,
        choice is Auto <==> name == cuvsCagraHashMode::AUTO_HASH,
{
}

/// The C names of this choice are read as they stand.
pub proof fn hash_modes_are_read_by_name(name: cuvsCagraHashMode, choice: HashMode)
    requires
        call_ensures(<HashMode as From<cuvsCagraHashMode>>::from, (name,), choice),
    ensures
        choice == HashMode::of_code(name),
        name == cuvsCagraHashMode::HASH <==> choice is Hash,
        name == cuvsCagraHashMode::SMALL <==> choice is Small,
        name == cuvsCagraHashMode::AUTO_HASH <==> choice is Auto,
{
}

/// Every HNSW rule goes to the C name of the same rule.
pub proof fn hnsw_heuristics_keep_their_names(choice: HnswHeuristicType, name: cuvsCagraHnswHeuristicType)
    requires
        call_ensures(<cuvsCagraHnswHeuristicType as From<HnswHeuristicType>>::from, (choice,), name),
    ensures
        name == choice.code(),
        choice is SimilarSearchPerformance <==> name == cuvsCagraHnswHeuristicType::CUVS_CAGRA_HEURISTIC_SIMILAR_SEARCH_PERFORMANCE,
        choice is SameGraphFootprint <==> name == cuvsCagraHnswHeuristicType::CUVS_CAGRA_HEURISTIC_SAME_GRAPH_FOOTPRINT,
{
}

/// The C names of this choice are read as they stand.
pub proof fn hnsw_heuristics_are_read_by_name(name: cuvsCagraHnswHeuristicType, choice: HnswHeuristicType)
    requires
        call_ensures(<HnswHeuristicType as From<cuvsCagraHnswHeuristicType>>::from, (name,), choice),
    ensures
        choice == HnswHeuristicType::of_code(name),
        name == cuvsCagraHnswHeuristicType::CUVS_CAGRA_HEURISTIC_SIMILAR_SEARCH_PERFORMANCE <==> choice is SimilarSearchPerformance,
        name == cuvsCagraHnswHeuristicType::CUVS_CAGRA_HEURISTIC_SAME_GRAPH_FOOTPRINT <==> choice is SameGraphFootprint,
{
}

/// Every codebook strategy goes to the C name of the same strategy.
pub proof fn codebook_kinds_keep_their_names(choice: CodebookGen, name: cuvsIvfPqCodebookGen)
    requires
        call_ensures(<cuvsIvfPqCodebookGen as From<CodebookGen>>::from, (choice,), name),
    ensures
        name == choice.code(),
        choice is PerSubspace <==> name == cuvsIvfPqCodebookGen::CUVS_IVF_PQ_CODEBOOK_GEN_PER_SUBSPACE,
        choice is PerCluster <==> name == cuvsIvfPqCodebookGen::CUVS_IVF_PQ_CODEBOOK_GEN_PER_CLUSTER,
{
}

/// The C names of this choice are read as they stand.
pub proof fn codebook_kinds_are_read_by_name(name: cuvsIvfPqCodebookGen, choice: CodebookGen)
    requires
        call_ensures(<CodebookGen as From<cuvsIvfPqCodebookGen>>::from, (name,), choice),
    ensures
        choice == CodebookGen::of_code(name),
        name == cuvsIvfPqCodebookGen::CUVS_IVF_PQ_CODEBOOK_GEN_PER_SUBSPACE <==> choice is PerSubspace,
        name == cuvsIvfPqCodebookGen::CUVS_IVF_PQ_CODEBOOK_GEN_PER_CLUSTER <==> choice is PerCluster,
{
}

/// Every list layout goes to the C name of the same layout.
pub proof fn list_layouts_keep_their_names(choice: ListLayout, name: cuvsIvfPqListLayout)
    requires
        call_ensures(<cuvsIvfPqListLayout as From<ListLayout>>::from, (choice,), name),
    ensures
        name == choice.code(),
        choice is Flat <==> name == cuvsIvfPqListLayout::CUVS_IVF_PQ_LIST_LAYOUT_FLAT,
        choice is Interleaved <==> name == cuvsIvfPqListLayout::CUVS_IVF_PQ_LIST_LAYOUT_INTERLEAVED,
{
}

/// The C names of this choice are read as they stand.
pub proof fn list_layouts_are_read_by_name(name: cuvsIvfPqListLayout, choice: ListLayout)
    requires
        call_ensures(<ListLayout as From<cuvsIvfPqListLayout>>::from, (name,), choice),
    ensures
        choice == ListLayout::of_code(name),
        name == cuvsIvfPqListLayout::CUVS_IVF_PQ_LIST_LAYOUT_FLAT <==> choice is Flat,
        name == cuvsIvfPqListLayout::CUVS_IVF_PQ_LIST_LAYOUT_INTERLEAVED <==> choice is Interleaved,
{
}

/// Every lookup-table type goes to the CUDA name of the same type.
pub proof fn lut_dtypes_keep_their_names(choice: LutDType, name: cudaDataType_t)
    requires
        call_ensures(<cudaDataType_t as From<LutDType>>::from, (choice,), name),
    ensures
        name == choice.code(),
        choice is F32 <==> name == cudaDataType_t::CUDA_R_32F,
        choice is F16 <==> name == cudaDataType_t::CUDA_R_16F,
        choice is U8 <==> name == cudaDataType_t::CUDA_R_8U,
{
}

/// Every accumulator type goes to the CUDA name of the same type.
pub proof fn internal_distance_dtypes_keep_their_names(choice: InternalDistanceDType, name: cudaDataType_t)
    requires
        call_ensures(<cudaDataType_t as From<InternalDistanceDType>>::from, (choice,), name),
    ensures
        name == choice.code(),
        choice is F32 <==> name == cudaDataType_t::CUDA_R_32F,
        choice is F16 <==> name == cudaDataType_t::CUDA_R_16F,
{
}

/// Every coarse-search type goes to the CUDA name of the same type.
pub proof fn coarse_search_dtypes_keep_their_names(choice: CoarseSearchDType, name: cudaDataType_t)
    requires
        call_ensures(<cudaDataType_t as From<CoarseSearchDType>>::from, (choice,), name),
    ensures
        name == choice.code(),
        choice is F32 <==> name == cudaDataType_t::CUDA_R_32F,
        choice is F16 <==> name == cudaDataType_t::CUDA_R_16F,
        choice is I8 <==> name == cudaDataType_t::CUDA_R_8I,
{
}

/// Every piece of work fills an index of the type that it is named after.
pub proof fn work_is_for_its_index<'a>(work: Work<'a>, kind: IndexKind)
    requires
        call_ensures(Work::kind, (&work,), kind),
    ensures
        kind == work.index_kind(),
        kind == IndexKind::BruteForce <==> work is BruteForceBuild || work is BruteForceDeserialize,
        kind == IndexKind::Cagra <==> work is CagraBuild || work is CagraFromArgs || work is CagraDeserialize
            || work is CagraMerge,
        kind == IndexKind::IvfFlat <==> work is IvfFlatBuild || work is IvfFlatDeserialize,
        kind == IndexKind::IvfPq <==> work is IvfPqBuild || work is IvfPqBuildPrecomputed || work is IvfPqDeserialize,
        kind == IndexKind::Vamana <==> work is VamanaBuild,
{
}

} // verus!

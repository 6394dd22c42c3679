//! What each operation asks of the C library.
//!
//! The tensors are views, which convert into themselves, so that nothing but
//! the operation decides: each argument reaches its own place in the call, and
//! the operation fails only where it says so.

use vstd::prelude::*;

use crate::call::{Call, Figure, IndexKind, Inside};
use crate::cluster::kmeans::{self, KMeansError};
use crate::construction::Construction;
use crate::distance::{DistanceError, DistanceType};
use crate::dlpack::{DLDataType, DLTensorView, DLTensorViewMut};
use crate::error::LibraryError;
use crate::ffi::{cuvsFilterType, cuvsLogLevel_t};
use crate::neighbors::brute_force::{self, BruteForceError};
use crate::neighbors::cagra::index::Merging;
use crate::neighbors::cagra::{self, CagraError};
use crate::neighbors::filters::SearchFilter;
use crate::neighbors::ivf_flat::{self, IvfFlatError};
use crate::neighbors::ivf_pq::{self, IvfPqError};
use crate::neighbors::vamana::{self, VamanaError};
use crate::resources::{Resources, ResourcesError};

verus! {

/// A C filter that hands over these words as unsigned 32-bit ones.
pub open spec fn hands_over(filter: crate::call::cuvsFilter<'_>, source: &SearchFilter<'_>) -> bool {
    &&& filter.words is Some
    &&& filter.words->0.inner.dl_tensor.data == source@.data
    &&& filter.words->0.inner.dl_tensor.device == source@.device
    &&& filter.words->0.inner.dl_tensor.shape@ == source@.shape
    &&& filter.words->0.inner.dl_tensor.strides is None
    &&& filter.words->0.inner.dl_tensor.dtype == (DLDataType { code: 1, bits: 32, lanes: 1 })
    &&& source is Bitset ==> filter.type_ == cuvsFilterType::BITSET
    &&& source is Bitmap ==> filter.type_ == cuvsFilterType::BITMAP
}

/// A C filter that tells that there is none.
pub open spec fn no_filter(filter: crate::call::cuvsFilter<'_>) -> bool {
    filter.words is None && filter.type_ == cuvsFilterType::NO_FILTER
}

/// A file name behind which a final zero was put.
pub open spec fn ends_in_zero(path: Seq<u8>, name: Seq<u8>) -> bool {
    path == name.push(0u8)
}

/// Two element types are of one class and width.
pub open spec fn same_elements(a: DLDataType, b: DLDataType) -> bool {
    a.code == b.code && a.bits == b.bits
}

/// The distances between the rows of two matrices are asked for under the metric
/// given, by its name and with its argument.
pub proof fn pairwise_distance_asks_for_its_metric<'a>(
    res: &Resources,
    x: DLTensorView<'a>,
    y: DLTensorView<'a>,
    distances: DLTensorViewMut<'a>,
    metric: DistanceType,
    r: Result<Call<'a>, DistanceError>,
)
    requires
        call_ensures(crate::distance::pairwise_distance::<DLTensorView<'a>, DLTensorView<'a>, DLTensorViewMut<'a>>, (res, x, y, distances, metric,), r),
    ensures
        r is Ok && r->Ok_0 is PairwiseDistance,
        r->Ok_0->PairwiseDistance_res == res.handle,
        r->Ok_0->PairwiseDistance_x == x,
        r->Ok_0->PairwiseDistance_y == y,
        r->Ok_0->PairwiseDistance_distances == distances,
        r->Ok_0->PairwiseDistance_metric == metric.code(),
        crate::laws::settings::goes_with(metric, r->Ok_0->PairwiseDistance_metric_arg),
{
}

/// A fit hands over the rows, the weights if there are any, and the place of the
/// centers.
pub proof fn kmeans_fit_hands_over_its_tensors<'a>(
    res: &Resources,
    params: &kmeans::params::Params,
    x: DLTensorView<'a>,
    weights: Option<DLTensorView<'a>>,
    centroids: DLTensorViewMut<'a>,
    r: Result<Call<'a>, KMeansError>,
)
    requires
        call_ensures(kmeans::fit::<DLTensorView<'a>, DLTensorView<'a>, DLTensorViewMut<'a>>, (res, params, x, weights, centroids,), r),
    ensures
        r is Ok && r->Ok_0 is KMeansFit,
        r->Ok_0->KMeansFit_res == res.handle,
        r->Ok_0->KMeansFit_params == params.handle,
        r->Ok_0->KMeansFit_x == x,
        r->Ok_0->KMeansFit_sample_weight == weights,
        r->Ok_0->KMeansFit_centroids == centroids,
{
}

/// A prediction hands over the rows, the weights, the centers and the place of
/// the labels, and says whether weights are to be normalized.
pub proof fn kmeans_predict_hands_over_its_tensors<'a>(
    res: &Resources,
    params: &kmeans::params::Params,
    x: DLTensorView<'a>,
    weights: Option<DLTensorView<'a>>,
    centroids: DLTensorView<'a>,
    labels: DLTensorViewMut<'a>,
    normalize: bool,
    r: Result<Call<'a>, KMeansError>,
)
    requires
        call_ensures(kmeans::predict::<DLTensorView<'a>, DLTensorView<'a>, DLTensorView<'a>, DLTensorViewMut<'a>>, (res, params, x, weights, centroids, labels, normalize,), r),
    ensures
        r is Ok && r->Ok_0 is KMeansPredict,
        r->Ok_0->KMeansPredict_res == res.handle,
        r->Ok_0->KMeansPredict_params == params.handle,
        r->Ok_0->KMeansPredict_x == x,
        r->Ok_0->KMeansPredict_sample_weight == weights,
        r->Ok_0->KMeansPredict_centroids == centroids,
        r->Ok_0->KMeansPredict_labels == labels,
        r->Ok_0->KMeansPredict_normalize_weight == normalize,
{
}

/// A cost is asked for of the rows and the centers.
pub proof fn kmeans_cluster_cost_hands_over_its_tensors<'a>(
    res: &Resources,
    x: DLTensorView<'a>,
    centroids: DLTensorView<'a>,
    r: Result<Call<'a>, KMeansError>,
)
    requires
        call_ensures(kmeans::cluster_cost::<DLTensorView<'a>, DLTensorView<'a>>, (res, x, centroids,), r),
    ensures
        r is Ok && r->Ok_0 is KMeansClusterCost,
        r->Ok_0->KMeansClusterCost_res == res.handle,
        r->Ok_0->KMeansClusterCost_x == x,
        r->Ok_0->KMeansClusterCost_centroids == centroids,
{
}

/// A brute-force search reads the queries and fills neighbors and distances.
pub proof fn brute_force_search_hands_over_its_tensors<'a, 'd>(
    index: &brute_force::Index<'d>,
    res: &Resources,
    queries: DLTensorView<'a>,
    neighbors: DLTensorViewMut<'a>,
    distances: DLTensorViewMut<'a>,
    r: Result<Call<'a>, BruteForceError>,
)
    requires
        call_ensures(brute_force::Index::search::<DLTensorView<'a>, DLTensorViewMut<'a>, DLTensorViewMut<'a>>, (index, res, queries, neighbors, distances,), r),
    ensures
        r is Ok && r->Ok_0 is BruteForceSearch,
        r->Ok_0->BruteForceSearch_res == res.handle,
        r->Ok_0->BruteForceSearch_index == index.handle,
        r->Ok_0->BruteForceSearch_queries == queries,
        r->Ok_0->BruteForceSearch_neighbors == neighbors,
        r->Ok_0->BruteForceSearch_distances == distances,
        no_filter(r->Ok_0->BruteForceSearch_filter),
{
}

/// A filtered brute-force search does the same with either kind of filter.
pub proof fn brute_force_filtered_search_hands_over_its_filter<'a, 'd>(
    index: &brute_force::Index<'d>,
    res: &Resources,
    queries: DLTensorView<'a>,
    neighbors: DLTensorViewMut<'a>,
    distances: DLTensorViewMut<'a>,
    filter: &'a SearchFilter<'a>,
    r: Result<Call<'a>, BruteForceError>,
)
    requires
        call_ensures(brute_force::Index::search_filtered::<DLTensorView<'a>, DLTensorViewMut<'a>, DLTensorViewMut<'a>>, (index, res, queries, neighbors, distances, filter,), r),
    ensures
        r is Ok && r->Ok_0 is BruteForceSearch,
        r->Ok_0->BruteForceSearch_res == res.handle,
        r->Ok_0->BruteForceSearch_index == index.handle,
        r->Ok_0->BruteForceSearch_queries == queries,
        r->Ok_0->BruteForceSearch_neighbors == neighbors,
        r->Ok_0->BruteForceSearch_distances == distances,
        hands_over(r->Ok_0->BruteForceSearch_filter, filter),
{
}

/// A CAGRA search reads the queries and fills neighbors and distances.
pub proof fn cagra_search_hands_over_its_tensors<'a, 'd>(
    index: &cagra::Index<'d>,
    res: &Resources,
    params: &cagra::SearchParams,
    queries: DLTensorView<'a>,
    neighbors: DLTensorViewMut<'a>,
    distances: DLTensorViewMut<'a>,
    r: Result<Call<'a>, CagraError>,
)
    requires
        call_ensures(cagra::Index::search::<DLTensorView<'a>, DLTensorViewMut<'a>, DLTensorViewMut<'a>>, (index, res, params, queries, neighbors, distances,), r),
    ensures
        r is Ok && r->Ok_0 is CagraSearch,
        r->Ok_0->CagraSearch_res == res.handle,
        r->Ok_0->CagraSearch_index == index.handle,
        r->Ok_0->CagraSearch_queries == queries,
        r->Ok_0->CagraSearch_neighbors == neighbors,
        r->Ok_0->CagraSearch_distances == distances,
        r->Ok_0->CagraSearch_params == params.handle,
        no_filter(r->Ok_0->CagraSearch_filter),
{
}

/// A filtered CAGRA search does the same with a bitset, and refuses a bitmap.
pub proof fn cagra_filtered_search_hands_over_its_filter<'a, 'd>(
    index: &cagra::Index<'d>,
    res: &Resources,
    params: &cagra::SearchParams,
    queries: DLTensorView<'a>,
    neighbors: DLTensorViewMut<'a>,
    distances: DLTensorViewMut<'a>,
    filter: &'a SearchFilter<'a>,
    r: Result<Call<'a>, CagraError>,
)
    requires
        call_ensures(cagra::Index::search_filtered::<DLTensorView<'a>, DLTensorViewMut<'a>, DLTensorViewMut<'a>>, (index, res, params, queries, neighbors, distances, filter,), r),
    ensures
        r is Ok <==> filter is Bitset,
        r is Ok ==> r->Ok_0 is CagraSearch,
        r is Ok ==> r->Ok_0->CagraSearch_res == res.handle,
        r is Ok ==> r->Ok_0->CagraSearch_index == index.handle,
        r is Ok ==> r->Ok_0->CagraSearch_queries == queries,
        r is Ok ==> r->Ok_0->CagraSearch_neighbors == neighbors,
        r is Ok ==> r->Ok_0->CagraSearch_distances == distances,
        r is Ok ==> r->Ok_0->CagraSearch_params == params.handle,
        r is Ok ==> hands_over(r->Ok_0->CagraSearch_filter, filter),
        filter is Bitmap ==> (r matches Err(CagraError::Validation(s)) && s@ == "bitmap filters are not supported for CAGRA"@),
{
}

/// An IVF-Flat search reads queries of the element type of the index, and fills
/// neighbors and distances; other queries are refused.
pub proof fn ivf_flat_search_hands_over_its_tensors<'a>(
    index: &ivf_flat::Index,
    res: &Resources,
    params: &ivf_flat::SearchParams,
    index_dtype: DLDataType,
    queries: DLTensorView<'a>,
    neighbors: DLTensorViewMut<'a>,
    distances: DLTensorViewMut<'a>,
    r: Result<Call<'a>, IvfFlatError>,
)
    requires
        call_ensures(ivf_flat::Index::search::<DLTensorView<'a>, DLTensorViewMut<'a>, DLTensorViewMut<'a>>, (index, res, params, index_dtype, queries, neighbors, distances,), r),
    ensures
        r is Ok <==> same_elements(index_dtype, queries@.dtype),
        r is Ok ==> r->Ok_0 is IvfFlatSearch,
        r is Ok ==> r->Ok_0->IvfFlatSearch_res == res.handle,
        r is Ok ==> r->Ok_0->IvfFlatSearch_index == index.handle,
        r is Ok ==> r->Ok_0->IvfFlatSearch_queries == queries,
        r is Ok ==> r->Ok_0->IvfFlatSearch_neighbors == neighbors,
        r is Ok ==> r->Ok_0->IvfFlatSearch_distances == distances,
        r is Ok ==> r->Ok_0->IvfFlatSearch_params == params.handle,
        r is Ok ==> no_filter(r->Ok_0->IvfFlatSearch_filter),
        !same_elements(index_dtype, queries@.dtype) ==> (r matches Err(IvfFlatError::Validation(s)) && s@ == "queries dtype must match the index dtype exactly: index has "@ + crate::neighbors::dtype::dtype_text(index_dtype)
            + ", got "@ + crate::neighbors::dtype::dtype_text(queries@.dtype)),
{
}

/// A filtered IVF-Flat search does the same with a bitset, and refuses a bitmap
/// once the queries are in order.
pub proof fn ivf_flat_filtered_search_hands_over_its_filter<'a>(
    index: &ivf_flat::Index,
    res: &Resources,
    params: &ivf_flat::SearchParams,
    index_dtype: DLDataType,
    queries: DLTensorView<'a>,
    neighbors: DLTensorViewMut<'a>,
    distances: DLTensorViewMut<'a>,
    filter: &'a SearchFilter<'a>,
    r: Result<Call<'a>, IvfFlatError>,
)
    requires
        call_ensures(ivf_flat::Index::search_filtered::<DLTensorView<'a>, DLTensorViewMut<'a>, DLTensorViewMut<'a>>, (index, res, params, index_dtype, queries, neighbors, distances, filter,), r),
    ensures
        r is Ok <==> same_elements(index_dtype, queries@.dtype) && filter is Bitset,
        r is Ok ==> r->Ok_0 is IvfFlatSearch,
        r is Ok ==> r->Ok_0->IvfFlatSearch_res == res.handle,
        r is Ok ==> r->Ok_0->IvfFlatSearch_index == index.handle,
        r is Ok ==> r->Ok_0->IvfFlatSearch_queries == queries,
        r is Ok ==> r->Ok_0->IvfFlatSearch_neighbors == neighbors,
        r is Ok ==> r->Ok_0->IvfFlatSearch_distances == distances,
        r is Ok ==> r->Ok_0->IvfFlatSearch_params == params.handle,
        r is Ok ==> hands_over(r->Ok_0->IvfFlatSearch_filter, filter),
        !same_elements(index_dtype, queries@.dtype) ==> (r matches Err(IvfFlatError::Validation(s)) && s@ == "queries dtype must match the index dtype exactly: index has "@ + crate::neighbors::dtype::dtype_text(index_dtype)
            + ", got "@ + crate::neighbors::dtype::dtype_text(queries@.dtype)),
        same_elements(index_dtype, queries@.dtype) && filter is Bitmap ==> (r matches Err(IvfFlatError::Validation(s)) && s@ == "bitmap filters are not supported for IVF-Flat"@),
{
}

/// An IVF-PQ search reads queries of the element type of the index, where the
/// index tells one, and fills neighbors and distances.
pub proof fn ivf_pq_search_hands_over_its_tensors<'a>(
    index: &ivf_pq::Index,
    res: &Resources,
    params: &ivf_pq::SearchParams,
    index_dtype: DLDataType,
    queries: DLTensorView<'a>,
    neighbors: DLTensorViewMut<'a>,
    distances: DLTensorViewMut<'a>,
    r: Result<Call<'a>, IvfPqError>,
)
    requires
        call_ensures(ivf_pq::Index::search::<DLTensorView<'a>, DLTensorViewMut<'a>, DLTensorViewMut<'a>>, (index, res, params, index_dtype, queries, neighbors, distances,), r),
    ensures
        r is Ok <==> same_elements(index_dtype, queries@.dtype) || (index_dtype.code == 0 && index_dtype.bits == 0),
        r is Ok ==> r->Ok_0 is IvfPqSearch,
        r is Ok ==> r->Ok_0->IvfPqSearch_res == res.handle,
        r is Ok ==> r->Ok_0->IvfPqSearch_index == index.handle,
        r is Ok ==> r->Ok_0->IvfPqSearch_queries == queries,
        r is Ok ==> r->Ok_0->IvfPqSearch_neighbors == neighbors,
        r is Ok ==> r->Ok_0->IvfPqSearch_distances == distances,
        r is Ok ==> r->Ok_0->IvfPqSearch_params == params.handle,
        !same_elements(index_dtype, queries@.dtype) && !(index_dtype.code == 0 && index_dtype.bits == 0) ==> (r matches Err(IvfPqError::Validation(s)) && s@ == "queries dtype must match the index dtype exactly: index has "@ + crate::neighbors::dtype::dtype_text(index_dtype)
            + ", got "@ + crate::neighbors::dtype::dtype_text(queries@.dtype)),
{
}

/// A transformation reads the vectors, and writes clusters as `uint32` and codes
/// as `uint8`; outputs of other element types are refused, labels first.
pub proof fn ivf_pq_transform_hands_over_its_tensors<'a>(
    index: &ivf_pq::Index,
    res: &Resources,
    input: DLTensorView<'a>,
    labels: DLTensorViewMut<'a>,
    codes: DLTensorViewMut<'a>,
    r: Result<Call<'a>, IvfPqError>,
)
    requires
        call_ensures(ivf_pq::Index::transform::<DLTensorView<'a>, DLTensorViewMut<'a>, DLTensorViewMut<'a>>, (index, res, input, labels, codes,), r),
    ensures
        r is Ok <==> labels@.dtype.code == 1 && labels@.dtype.bits == 32 && codes@.dtype.code == 1 && codes@.dtype.bits == 8,
        r is Ok ==> r->Ok_0 is IvfPqTransform,
        r is Ok ==> r->Ok_0->IvfPqTransform_res == res.handle,
        r is Ok ==> r->Ok_0->IvfPqTransform_index == index.handle,
        r is Ok ==> r->Ok_0->IvfPqTransform_input_dataset == input,
        r is Ok ==> r->Ok_0->IvfPqTransform_output_labels == labels,
        r is Ok ==> r->Ok_0->IvfPqTransform_output_dataset == codes,
        !(labels@.dtype.code == 1 && labels@.dtype.bits == 32) ==> (r matches Err(IvfPqError::Validation(s)) && s@ == "output_labels must use uint32 dtype, got "@ + crate::neighbors::dtype::dtype_text(labels@.dtype)),
        labels@.dtype.code == 1 && labels@.dtype.bits == 32 && !(codes@.dtype.code == 1 && codes@.dtype.bits == 8) ==> (r matches Err(IvfPqError::Validation(s)) && s@ == "output_dataset must use uint8 dtype, got "@ + crate::neighbors::dtype::dtype_text(codes@.dtype)),
{
}

/// The row numbers of a list are asked for where the index has the list.
pub proof fn ivf_pq_lists_are_asked_for_by_label(
    index: &ivf_pq::Index,
    label: u32,
    n_lists: Result<i64, LibraryError>,
    r: Result<Call<'static>, IvfPqError>,
)
    requires
        call_ensures(ivf_pq::Index::list_indices, (index, label, n_lists,), r),
    ensures
        r is Ok <==> (n_lists matches Ok(n) && label < n),
        r matches Ok(call) ==> call == (Call::TensorGet { index: index.handle, tensor: Inside::IvfPqListIndices(label) }),
        n_lists matches Err(e) ==> r == Err::<Call<'static>, IvfPqError>(IvfPqError::Library(e)),
        (n_lists matches Ok(n) && label >= n) ==> (r matches Err(IvfPqError::Validation(s)) && s@ == "label must be < n_lists ("@ + crate::text::signed_decimal(n_lists->Ok_0 as int) + "), got "@
            + crate::text::decimal(label as nat)),
{
}

/// The codes of a list are unpacked, from the offset on, where the index has the
/// list.
pub proof fn ivf_pq_lists_are_unpacked_by_label<'a>(
    index: &ivf_pq::Index,
    res: &Resources,
    out_codes: DLTensorViewMut<'a>,
    label: u32,
    offset: u32,
    n_lists: Result<i64, LibraryError>,
    r: Result<Call<'a>, IvfPqError>,
)
    requires
        call_ensures(ivf_pq::Index::unpack_contiguous_list_data::<DLTensorViewMut<'a>>, (index, res, out_codes, label, offset, n_lists,), r),
    ensures
        r is Ok <==> (n_lists matches Ok(n) && label < n),
        r is Ok ==> r->Ok_0 is IvfPqUnpackContiguousListData,
        r is Ok ==> r->Ok_0->IvfPqUnpackContiguousListData_res == res.handle,
        r is Ok ==> r->Ok_0->IvfPqUnpackContiguousListData_index == index.handle,
        r is Ok ==> r->Ok_0->IvfPqUnpackContiguousListData_out_codes == out_codes,
        r is Ok ==> r->Ok_0->IvfPqUnpackContiguousListData_label == label,
        r is Ok ==> r->Ok_0->IvfPqUnpackContiguousListData_offset == offset,
        n_lists matches Err(e) ==> r == Err::<Call<'a>, IvfPqError>(IvfPqError::Library(e)),
        (n_lists matches Ok(n) && label >= n) ==> (r matches Err(IvfPqError::Validation(s)) && s@ == "label must be < n_lists ("@ + crate::text::signed_decimal(n_lists->Ok_0 as int) + "), got "@
            + crate::text::decimal(label as nat)),
{
}

/// A brute-force build reads the dataset under the metric given, by its name and
/// with its argument.
pub proof fn brute_force_build_hands_over_its_dataset<'a>(
    res: &Resources,
    dataset: DLTensorView<'a>,
    metric: DistanceType,
    r: Result<Construction<'a>, BruteForceError>,
)
    requires
        call_ensures(brute_force::Index::<'a>::build::<DLTensorView<'a>>, (res, dataset, metric,), r),
    ensures
        r matches Ok(Construction::Create { work }) && work is BruteForceBuild,
        r->Ok_0->Create_work->BruteForceBuild_res == res.handle,
        r->Ok_0->Create_work->BruteForceBuild_dataset == dataset,
        r->Ok_0->Create_work->BruteForceBuild_metric == metric.code(),
        crate::laws::settings::goes_with(metric, r->Ok_0->Create_work->BruteForceBuild_metric_arg),
{
}

/// A CAGRA build reads the dataset with the parameters given.
pub proof fn cagra_build_hands_over_its_dataset<'a>(
    res: &Resources,
    params: &cagra::IndexParams,
    dataset: DLTensorView<'a>,
    r: Result<Construction<'a>, CagraError>,
)
    requires
        call_ensures(cagra::Index::<'a>::build::<DLTensorView<'a>>, (res, params, dataset,), r),
    ensures
        r matches Ok(Construction::Create { work }) && work is CagraBuild,
        r->Ok_0->Create_work->CagraBuild_res == res.handle,
        r->Ok_0->Create_work->CagraBuild_params == params.handle,
        r->Ok_0->Create_work->CagraBuild_dataset == dataset,
{
}

/// An IVF-Flat build reads the dataset with the parameters given.
pub proof fn ivf_flat_build_hands_over_its_dataset<'a>(
    res: &Resources,
    params: &ivf_flat::IndexParams,
    dataset: DLTensorView<'a>,
    r: Result<Construction<'a>, IvfFlatError>,
)
    requires
        call_ensures(ivf_flat::Index::build::<DLTensorView<'a>>, (res, params, dataset,), r),
    ensures
        r matches Ok(Construction::Create { work }) && work is IvfFlatBuild,
        r->Ok_0->Create_work->IvfFlatBuild_res == res.handle,
        r->Ok_0->Create_work->IvfFlatBuild_params == params.handle,
        r->Ok_0->Create_work->IvfFlatBuild_dataset == dataset,
{
}

/// An IVF-PQ build reads the dataset with the parameters given.
pub proof fn ivf_pq_build_hands_over_its_dataset<'a>(
    res: &Resources,
    params: &ivf_pq::IndexParams,
    dataset: DLTensorView<'a>,
    r: Result<Construction<'a>, IvfPqError>,
)
    requires
        call_ensures(ivf_pq::Index::build::<DLTensorView<'a>>, (res, params, dataset,), r),
    ensures
        r matches Ok(Construction::Create { work }) && work is IvfPqBuild,
        r->Ok_0->Create_work->IvfPqBuild_res == res.handle,
        r->Ok_0->Create_work->IvfPqBuild_params == params.handle,
        r->Ok_0->Create_work->IvfPqBuild_dataset == dataset,
{
}

/// A Vamana build reads the dataset with the parameters given.
pub proof fn vamana_build_hands_over_its_dataset<'a>(
    res: &Resources,
    params: &vamana::IndexParams,
    dataset: DLTensorView<'a>,
    r: Result<Construction<'a>, VamanaError>,
)
    requires
        call_ensures(vamana::Index::build::<DLTensorView<'a>>, (res, params, dataset,), r),
    ensures
        r matches Ok(Construction::Create { work }) && work is VamanaBuild,
        r->Ok_0->Create_work->VamanaBuild_res == res.handle,
        r->Ok_0->Create_work->VamanaBuild_params == params.handle,
        r->Ok_0->Create_work->VamanaBuild_dataset == dataset,
{
}

/// A CAGRA index is made from the graph and the dataset given, each in its place.
pub proof fn cagra_from_args_hands_over_graph_and_dataset<'a>(
    res: &Resources,
    metric: DistanceType,
    graph: DLTensorView<'a>,
    dataset: DLTensorView<'a>,
    r: Result<Construction<'a>, CagraError>,
)
    requires
        call_ensures(cagra::Index::<'a>::from_args::<DLTensorView<'a>, DLTensorView<'a>>, (res, metric, graph, dataset,), r),
    ensures
        r matches Ok(Construction::Create { work }) && work is CagraFromArgs,
        r->Ok_0->Create_work->CagraFromArgs_res == res.handle,
        r->Ok_0->Create_work->CagraFromArgs_metric == metric.code(),
        r->Ok_0->Create_work->CagraFromArgs_graph == graph,
        r->Ok_0->Create_work->CagraFromArgs_dataset == dataset,
{
}

/// An IVF-PQ index over precomputed tensors is made from these, each in its place.
pub proof fn ivf_pq_build_precomputed_hands_over_its_tensors<'a>(
    res: &Resources,
    params: &ivf_pq::IndexParams,
    dim: u32,
    pq_centers: DLTensorView<'a>,
    centers_padded: DLTensorView<'a>,
    centers_rot: DLTensorView<'a>,
    rotation_matrix: DLTensorView<'a>,
    r: Result<Construction<'a>, IvfPqError>,
)
    requires
        call_ensures(ivf_pq::Index::build_precomputed::<DLTensorView<'a>, DLTensorView<'a>, DLTensorView<'a>, DLTensorView<'a>>, (res, params, dim, pq_centers, centers_padded, centers_rot, rotation_matrix,), r),
    ensures
        r matches Ok(Construction::Create { work }) && work is IvfPqBuildPrecomputed,
        r->Ok_0->Create_work->IvfPqBuildPrecomputed_res == res.handle,
        r->Ok_0->Create_work->IvfPqBuildPrecomputed_params == params.handle,
        r->Ok_0->Create_work->IvfPqBuildPrecomputed_dim == dim,
        r->Ok_0->Create_work->IvfPqBuildPrecomputed_pq_centers == pq_centers,
        r->Ok_0->Create_work->IvfPqBuildPrecomputed_centers_padded == centers_padded,
        r->Ok_0->Create_work->IvfPqBuildPrecomputed_centers_rot == centers_rot,
        r->Ok_0->Create_work->IvfPqBuildPrecomputed_rotation_matrix == rotation_matrix,
{
}

/// A merge names its indices in order and has no filter.
pub proof fn cagra_merge_names_its_indices<'a>(
    res: &Resources,
    params: &cagra::IndexParams,
    indices: &[&cagra::Index<'_>],
    r: Merging<'a>,
)
    requires
        call_ensures(cagra::Index::merge, (res, params, indices), r),
    ensures
        r@ matches Construction::Create { work } && work is CagraMerge,
        r@->Create_work->CagraMerge_res == res.handle,
        r@->Create_work->CagraMerge_params == params.handle,
        r@->Create_work->CagraMerge_indices@.len() == indices@.len(),
        forall|i: int|
            0 <= i < indices@.len() ==> #[trigger] r@->Create_work->CagraMerge_indices@[i] == indices@[i].handle,
        no_filter(r@->Create_work->CagraMerge_filter),
{
}

/// A filtered merge names its indices in order and hands over a bitset; a
/// bitmap is refused.
pub proof fn cagra_filtered_merge_hands_over_its_filter<'a>(
    res: &Resources,
    params: &cagra::IndexParams,
    indices: &[&cagra::Index<'_>],
    filter: &'a SearchFilter<'a>,
    r: Result<Merging<'a>, CagraError>,
)
    requires
        call_ensures(cagra::Index::merge_filtered, (res, params, indices, filter), r),
    ensures
        r is Ok <==> filter is Bitset,
        filter is Bitmap ==> (r matches Err(CagraError::Validation(s)) && s@
            == "bitmap filters are not supported for CAGRA"@),
        r matches Ok(merging) ==> {
            &&& merging@ matches Construction::Create { work } && work is CagraMerge
            &&& merging@->Create_work->CagraMerge_res == res.handle
            &&& merging@->Create_work->CagraMerge_params == params.handle
            &&& merging@->Create_work->CagraMerge_indices@.len() == indices@.len()
            &&& forall|i: int|
                0 <= i < indices@.len() ==> #[trigger] merging@->Create_work->CagraMerge_indices@[i]
                    == indices@[i].handle
            &&& hands_over(merging@->Create_work->CagraMerge_filter, filter)
        },
{
}

/// A name is free of zero bytes where it contains none.
proof fn lemma_zero_bytes(name: Seq<u8>)
    ensures
        crate::path::nul_free(name) <==> !name.contains(0u8),
        forall|e: crate::path::NulError| #[trigger] e.of(name) ==> name.contains(0u8),
{
    if !crate::path::nul_free(name) {
        let i = choose|i: int| 0 <= i < name.len() && name[i] == 0;
        assert(name[i] == 0u8);
    }
    assert forall|e: crate::path::NulError| #[trigger] e.of(name) implies name.contains(0u8) by {
        assert(name[e.position as int] == 0u8);
    }
}

/// A brute-force index is written to the file named.
pub proof fn brute_force_index_is_written_where_asked<'d>(
    index: &brute_force::Index<'d>,
    res: &Resources,
    path: &[u8],
    r: Result<Call<'static>, BruteForceError>,
)
    requires
        call_ensures(brute_force::Index::serialize, (index, res, path,), r),
    ensures
        r is Ok <==> !path@.contains(0u8),
        r is Err ==> r->Err_0 is InvalidPath,
        r is Ok ==> r->Ok_0 is BruteForceSerialize,
        r is Ok ==> r->Ok_0->BruteForceSerialize_res == res.handle,
        r is Ok ==> r->Ok_0->BruteForceSerialize_index == index.handle,
        r is Ok ==> ends_in_zero(r->Ok_0->BruteForceSerialize_path@, path@),
{
    lemma_zero_bytes(path@);
}

/// A CAGRA index is written to the file named, with or without its
/// dataset as asked.
pub proof fn cagra_index_is_written_where_asked<'d>(
    index: &cagra::Index<'d>,
    res: &Resources,
    path: &[u8],
    include_dataset: bool,
    r: Result<Call<'static>, CagraError>,
)
    requires
        call_ensures(cagra::Index::serialize, (index, res, path, include_dataset,), r),
    ensures
        r is Ok <==> !path@.contains(0u8),
        r is Err ==> r->Err_0 is InvalidPath,
        r is Ok ==> r->Ok_0 is CagraSerialize,
        r is Ok ==> r->Ok_0->CagraSerialize_res == res.handle,
        r is Ok ==> r->Ok_0->CagraSerialize_index == index.handle,
        r is Ok ==> ends_in_zero(r->Ok_0->CagraSerialize_path@, path@),
        r is Ok ==> r->Ok_0->CagraSerialize_include_dataset == include_dataset,
{
    lemma_zero_bytes(path@);
}

/// An IVF-Flat index is written to the file named.
pub proof fn ivf_flat_index_is_written_where_asked(
    index: &ivf_flat::Index,
    res: &Resources,
    path: &[u8],
    r: Result<Call<'static>, IvfFlatError>,
)
    requires
        call_ensures(ivf_flat::Index::serialize, (index, res, path,), r),
    ensures
        r is Ok <==> !path@.contains(0u8),
        r is Err ==> r->Err_0 is InvalidPath,
        r is Ok ==> r->Ok_0 is IvfFlatSerialize,
        r is Ok ==> r->Ok_0->IvfFlatSerialize_res == res.handle,
        r is Ok ==> r->Ok_0->IvfFlatSerialize_index == index.handle,
        r is Ok ==> ends_in_zero(r->Ok_0->IvfFlatSerialize_path@, path@),
{
    lemma_zero_bytes(path@);
}

/// An IVF-PQ index is written to the file named.
pub proof fn ivf_pq_index_is_written_where_asked(
    index: &ivf_pq::Index,
    res: &Resources,
    path: &[u8],
    r: Result<Call<'static>, IvfPqError>,
)
    requires
        call_ensures(ivf_pq::Index::serialize, (index, res, path,), r),
    ensures
        r is Ok <==> !path@.contains(0u8),
        r is Err ==> r->Err_0 is InvalidPath,
        r is Ok ==> r->Ok_0 is IvfPqSerialize,
        r is Ok ==> r->Ok_0->IvfPqSerialize_res == res.handle,
        r is Ok ==> r->Ok_0->IvfPqSerialize_index == index.handle,
        r is Ok ==> ends_in_zero(r->Ok_0->IvfPqSerialize_path@, path@),
{
    lemma_zero_bytes(path@);
}

/// A Vamana index is written to the file named, with or without its
/// dataset as asked.
pub proof fn vamana_index_is_written_where_asked(
    index: &vamana::Index,
    res: &Resources,
    path: &[u8],
    include_dataset: bool,
    r: Result<Call<'static>, VamanaError>,
)
    requires
        call_ensures(vamana::Index::serialize, (index, res, path, include_dataset,), r),
    ensures
        r is Ok <==> !path@.contains(0u8),
        r is Err ==> r->Err_0 is InvalidPath,
        r is Ok ==> r->Ok_0 is VamanaSerialize,
        r is Ok ==> r->Ok_0->VamanaSerialize_res == res.handle,
        r is Ok ==> r->Ok_0->VamanaSerialize_index == index.handle,
        r is Ok ==> ends_in_zero(r->Ok_0->VamanaSerialize_path@, path@),
        r is Ok ==> r->Ok_0->VamanaSerialize_include_dataset == include_dataset,
{
    lemma_zero_bytes(path@);
}

/// A CAGRA index is written in the hnswlib format to the file named.
pub proof fn cagra_hnswlib_file_is_written_where_asked<'d>(
    index: &cagra::Index<'d>,
    res: &Resources,
    path: &[u8],
    r: Result<Call<'static>, CagraError>,
)
    requires
        call_ensures(cagra::Index::serialize_to_hnswlib, (index, res, path,), r),
    ensures
        r is Ok <==> !path@.contains(0u8),
        r is Err ==> r->Err_0 is InvalidPath,
        r is Ok ==> r->Ok_0 is CagraSerializeToHnswlib,
        r is Ok ==> r->Ok_0->CagraSerializeToHnswlib_res == res.handle,
        r is Ok ==> r->Ok_0->CagraSerializeToHnswlib_index == index.handle,
        r is Ok ==> ends_in_zero(r->Ok_0->CagraSerializeToHnswlib_path@, path@),
{
    lemma_zero_bytes(path@);
}

/// A brute-force index is read from the file named.
pub proof fn brute_force_index_is_read_where_asked(
    res: &Resources,
    path: &[u8],
    r: Result<Construction<'static>, BruteForceError>,
)
    requires
        call_ensures(brute_force::Index::deserialize, (res, path,), r),
    ensures
        r is Ok <==> !path@.contains(0u8),
        r is Err ==> r->Err_0 is InvalidPath,
        r is Ok ==> r->Ok_0 is Create && r->Ok_0->Create_work is BruteForceDeserialize,
        r is Ok ==> r->Ok_0->Create_work->BruteForceDeserialize_res == res.handle,
        r is Ok ==> ends_in_zero(r->Ok_0->Create_work->BruteForceDeserialize_path@, path@),
{
    lemma_zero_bytes(path@);
}

/// A CAGRA index is read from the file named.
pub proof fn cagra_index_is_read_where_asked(
    res: &Resources,
    path: &[u8],
    r: Result<Construction<'static>, CagraError>,
)
    requires
        call_ensures(cagra::Index::deserialize, (res, path,), r),
    ensures
        r is Ok <==> !path@.contains(0u8),
        r is Err ==> r->Err_0 is InvalidPath,
        r is Ok ==> r->Ok_0 is Create && r->Ok_0->Create_work is CagraDeserialize,
        r is Ok ==> r->Ok_0->Create_work->CagraDeserialize_res == res.handle,
        r is Ok ==> ends_in_zero(r->Ok_0->Create_work->CagraDeserialize_path@, path@),
{
    lemma_zero_bytes(path@);
}

/// An IVF-Flat index is read from the file named.
pub proof fn ivf_flat_index_is_read_where_asked(
    res: &Resources,
    path: &[u8],
    r: Result<Construction<'static>, IvfFlatError>,
)
    requires
        call_ensures(ivf_flat::Index::deserialize, (res, path,), r),
    ensures
        r is Ok <==> !path@.contains(0u8),
        r is Err ==> r->Err_0 is InvalidPath,
        r is Ok ==> r->Ok_0 is Create && r->Ok_0->Create_work is IvfFlatDeserialize,
        r is Ok ==> r->Ok_0->Create_work->IvfFlatDeserialize_res == res.handle,
        r is Ok ==> ends_in_zero(r->Ok_0->Create_work->IvfFlatDeserialize_path@, path@),
{
    lemma_zero_bytes(path@);
}

/// An IVF-PQ index is read from the file named.
pub proof fn ivf_pq_index_is_read_where_asked(
    res: &Resources,
    path: &[u8],
    r: Result<Construction<'static>, IvfPqError>,
)
    requires
        call_ensures(ivf_pq::Index::deserialize, (res, path,), r),
    ensures
        r is Ok <==> !path@.contains(0u8),
        r is Err ==> r->Err_0 is InvalidPath,
        r is Ok ==> r->Ok_0 is Create && r->Ok_0->Create_work is IvfPqDeserialize,
        r is Ok ==> r->Ok_0->Create_work->IvfPqDeserialize_res == res.handle,
        r is Ok ==> ends_in_zero(r->Ok_0->Create_work->IvfPqDeserialize_path@, path@),
{
    lemma_zero_bytes(path@);
}

/// A CAGRA extension reads the additional vectors with the parameters given, and
/// keeps the index.
pub proof fn cagra_extend_hands_over_its_vectors<'a, 'd>(
    index: &mut cagra::Index<'d>,
    res: &Resources,
    params: &cagra::ExtendParams,
    vectors: DLTensorView<'a>,
    r: Result<Call<'a>, CagraError>,
)
    requires
        call_ensures(cagra::Index::extend::<DLTensorView<'a>>, (index, res, params, vectors), r),
    ensures
        r is Ok && r->Ok_0 is CagraExtend,
        r->Ok_0->CagraExtend_res == res.handle,
        r->Ok_0->CagraExtend_params == params.handle,
        r->Ok_0->CagraExtend_additional_dataset == vectors,
        r->Ok_0->CagraExtend_index == old(index).handle,
        *final(index) == *old(index),
{
}

/// An IVF-Flat extension reads the new vectors and their row numbers, and keeps the
/// index.
pub proof fn ivf_flat_extend_hands_over_its_vectors<'a>(
    index: &mut ivf_flat::Index,
    res: &Resources,
    vectors: DLTensorView<'a>,
    numbers: DLTensorView<'a>,
    r: Result<Call<'a>, IvfFlatError>,
)
    requires
        call_ensures(ivf_flat::Index::extend::<DLTensorView<'a>, DLTensorView<'a>>, (index, res, vectors, numbers), r),
    ensures
        r is Ok && r->Ok_0 is IvfFlatExtend,
        r->Ok_0->IvfFlatExtend_res == res.handle,
        r->Ok_0->IvfFlatExtend_new_vectors == vectors,
        r->Ok_0->IvfFlatExtend_new_indices == numbers,
        r->Ok_0->IvfFlatExtend_index == old(index).handle,
        *final(index) == *old(index),
{
}

/// An IVF-PQ extension reads the new vectors and their row numbers, and keeps the
/// index.
pub proof fn ivf_pq_extend_hands_over_its_vectors<'a>(
    index: &mut ivf_pq::Index,
    res: &Resources,
    vectors: DLTensorView<'a>,
    numbers: DLTensorView<'a>,
    r: Result<Call<'a>, IvfPqError>,
)
    requires
        call_ensures(ivf_pq::Index::extend::<DLTensorView<'a>, DLTensorView<'a>>, (index, res, vectors, numbers), r),
    ensures
        r is Ok && r->Ok_0 is IvfPqExtend,
        r->Ok_0->IvfPqExtend_res == res.handle,
        r->Ok_0->IvfPqExtend_new_vectors == vectors,
        r->Ok_0->IvfPqExtend_new_indices == numbers,
        r->Ok_0->IvfPqExtend_index == old(index).handle,
        *final(index) == *old(index),
{
}

/// Each figure and tensor of a brute-force index is asked for under its own name, and the
/// index is destroyed as what it is.
pub proof fn brute_force_index_asks_for_what_is_named<'d>(index: brute_force::Index<'d>)
    ensures
        forall|r: Call<'static>| #[trigger]
            call_ensures(brute_force::Index::teardown, (index,), r) ==> r == (Call::IndexDestroy {
                kind: IndexKind::BruteForce,
                index: index.handle,
            }),
{
}

/// Each figure and tensor of a CAGRA index is asked for under its own name, and the
/// index is destroyed as what it is.
pub proof fn cagra_index_asks_for_what_is_named<'d>(index: cagra::Index<'d>)
    ensures
        forall|r: Call<'static>| #[trigger]
            call_ensures(cagra::Index::dims, (&index,), r) ==> r == (Call::FigureGet {
                index: index.handle,
                figure: Figure::CagraDims,
            }),
        forall|r: Call<'static>| #[trigger]
            call_ensures(cagra::Index::size, (&index,), r) ==> r == (Call::FigureGet {
                index: index.handle,
                figure: Figure::CagraSize,
            }),
        forall|r: Call<'static>| #[trigger]
            call_ensures(cagra::Index::graph_degree, (&index,), r) ==> r == (Call::FigureGet {
                index: index.handle,
                figure: Figure::CagraGraphDegree,
            }),
        forall|r: Call<'static>| #[trigger]
            call_ensures(cagra::Index::dataset, (&index,), r) ==> r == (Call::TensorGet {
                index: index.handle,
                tensor: Inside::CagraDataset,
            }),
        forall|r: Call<'static>| #[trigger]
            call_ensures(cagra::Index::graph, (&index,), r) ==> r == (Call::TensorGet {
                index: index.handle,
                tensor: Inside::CagraGraph,
            }),
        forall|r: Call<'static>| #[trigger]
            call_ensures(cagra::Index::teardown, (index,), r) ==> r == (Call::IndexDestroy {
                kind: IndexKind::Cagra,
                index: index.handle,
            }),
{
}

/// Each figure and tensor of an IVF-Flat index is asked for under its own name, and the
/// index is destroyed as what it is.
pub proof fn ivf_flat_index_asks_for_what_is_named(index: ivf_flat::Index)
    ensures
        forall|r: Call<'static>| #[trigger]
            call_ensures(ivf_flat::Index::n_lists, (&index,), r) ==> r == (Call::FigureGet {
                index: index.handle,
                figure: Figure::IvfFlatNLists,
            }),
        forall|r: Call<'static>| #[trigger]
            call_ensures(ivf_flat::Index::dims, (&index,), r) ==> r == (Call::FigureGet {
                index: index.handle,
                figure: Figure::IvfFlatDim,
            }),
        forall|r: Call<'static>| #[trigger]
            call_ensures(ivf_flat::Index::centers, (&index,), r) ==> r == (Call::TensorGet {
                index: index.handle,
                tensor: Inside::IvfFlatCenters,
            }),
        forall|r: Call<'static>| #[trigger]
            call_ensures(ivf_flat::Index::teardown, (index,), r) ==> r == (Call::IndexDestroy {
                kind: IndexKind::IvfFlat,
                index: index.handle,
            }),
{
}

/// Each figure and tensor of an IVF-PQ index is asked for under its own name, and the
/// index is destroyed as what it is.
pub proof fn ivf_pq_index_asks_for_what_is_named(index: ivf_pq::Index)
    ensures
        forall|r: Call<'static>| #[trigger]
            call_ensures(ivf_pq::Index::n_lists, (&index,), r) ==> r == (Call::FigureGet {
                index: index.handle,
                figure: Figure::IvfPqNLists,
            }),
        forall|r: Call<'static>| #[trigger]
            call_ensures(ivf_pq::Index::dims, (&index,), r) ==> r == (Call::FigureGet {
                index: index.handle,
                figure: Figure::IvfPqDim,
            }),
        forall|r: Call<'static>| #[trigger]
            call_ensures(ivf_pq::Index::size, (&index,), r) ==> r == (Call::FigureGet {
                index: index.handle,
                figure: Figure::IvfPqSize,
            }),
        forall|r: Call<'static>| #[trigger]
            call_ensures(ivf_pq::Index::pq_dim, (&index,), r) ==> r == (Call::FigureGet {
                index: index.handle,
                figure: Figure::IvfPqPqDim,
            }),
        forall|r: Call<'static>| #[trigger]
            call_ensures(ivf_pq::Index::pq_bits, (&index,), r) ==> r == (Call::FigureGet {
                index: index.handle,
                figure: Figure::IvfPqPqBits,
            }),
        forall|r: Call<'static>| #[trigger]
            call_ensures(ivf_pq::Index::pq_len, (&index,), r) ==> r == (Call::FigureGet {
                index: index.handle,
                figure: Figure::IvfPqPqLen,
            }),
        forall|r: Call<'static>| #[trigger]
            call_ensures(ivf_pq::Index::centers, (&index,), r) ==> r == (Call::TensorGet {
                index: index.handle,
                tensor: Inside::IvfPqCenters,
            }),
        forall|r: Call<'static>| #[trigger]
            call_ensures(ivf_pq::Index::centers_padded, (&index,), r) ==> r == (Call::TensorGet {
                index: index.handle,
                tensor: Inside::IvfPqCentersPadded,
            }),
        forall|r: Call<'static>| #[trigger]
            call_ensures(ivf_pq::Index::pq_centers, (&index,), r) ==> r == (Call::TensorGet {
                index: index.handle,
                tensor: Inside::IvfPqPqCenters,
            }),
        forall|r: Call<'static>| #[trigger]
            call_ensures(ivf_pq::Index::centers_rot, (&index,), r) ==> r == (Call::TensorGet {
                index: index.handle,
                tensor: Inside::IvfPqCentersRot,
            }),
        forall|r: Call<'static>| #[trigger]
            call_ensures(ivf_pq::Index::rotation_matrix, (&index,), r) ==> r == (Call::TensorGet {
                index: index.handle,
                tensor: Inside::IvfPqRotationMatrix,
            }),
        forall|r: Call<'static>| #[trigger]
            call_ensures(ivf_pq::Index::list_sizes, (&index,), r) ==> r == (Call::TensorGet {
                index: index.handle,
                tensor: Inside::IvfPqListSizes,
            }),
        forall|r: Call<'static>| #[trigger]
            call_ensures(ivf_pq::Index::teardown, (index,), r) ==> r == (Call::IndexDestroy {
                kind: IndexKind::IvfPq,
                index: index.handle,
            }),
{
}

/// Each figure and tensor of a Vamana index is asked for under its own name, and the
/// index is destroyed as what it is.
pub proof fn vamana_index_asks_for_what_is_named(index: vamana::Index)
    ensures
        forall|r: Call<'static>| #[trigger]
            call_ensures(vamana::Index::dims, (&index,), r) ==> r == (Call::FigureGet {
                index: index.handle,
                figure: Figure::VamanaDims,
            }),
        forall|r: Call<'static>| #[trigger]
            call_ensures(vamana::Index::teardown, (index,), r) ==> r == (Call::IndexDestroy {
                kind: IndexKind::Vamana,
                index: index.handle,
            }),
{
}

/// Vamana reports its dimensionality as a narrower number, which keeps its
/// value.
pub proof fn vamana_dims_keep_their_value(reply: Result<i32, LibraryError>, r: Result<i64, VamanaError>)
    requires
        call_ensures(vamana::Index::reported_dims, (reply,), r),
    ensures
        reply matches Ok(n) ==> (r matches Ok(m) && m == n),
        reply matches Err(e) ==> r == Err::<i64, VamanaError>(VamanaError::Library(e)),
{
}

/// Resources ask for what is named on their own handle, and the log level set
/// is the one given.
pub proof fn resources_ask_on_their_handle(
    res: Resources,
    created: Result<usize, LibraryError>,
    stream: usize,
    level: cuvsLogLevel_t,
)
    ensures
        forall|r: Result<Resources, ResourcesError>| #[trigger]
            call_ensures(Resources::new, (created,), r) ==> {
                &&& created matches Ok(handle) ==> (r matches Ok(made) && made.handle == handle)
                &&& created matches Err(e) ==> (r matches Err(ResourcesError::Library(f)) && f == e)
            },
        forall|r: Call<'static>| #[trigger]
            call_ensures(Resources::close, (res,), r) ==> r == (Call::ResourcesDestroy { res: res.handle }),
        forall|r: Call<'static>| #[trigger]
            call_ensures(Resources::set_stream, (&res, stream), r) ==> r == (Call::StreamSet {
                res: res.handle,
                stream,
            }),
        forall|r: Call<'static>| #[trigger]
            call_ensures(Resources::stream, (&res,), r) ==> r == (Call::StreamGet { res: res.handle }),
        forall|r: Call<'static>| #[trigger]
            call_ensures(Resources::sync_stream, (&res,), r) ==> r == (Call::StreamSync { res: res.handle }),
        forall|r: Call<'static>| #[trigger]
            call_ensures(Resources::device_id, (&res,), r) ==> r == (Call::DeviceIdGet { res: res.handle }),
        forall|r: Call<'static>| #[trigger]
            call_ensures(crate::logging::set_log_level, (level,), r) ==> r == (Call::LogLevelSet { level }),
        forall|r: Call<'static>| #[trigger] call_ensures(crate::logging::get_log_level, (), r) ==> r is LogLevelGet,
        forall|r: Call<'static>| #[trigger] call_ensures(crate::version::version, (), r) ==> r is VersionGet,
{
}

} // verus!

//! The steps between settings and parameters, and the conversions of errors.

use vstd::prelude::*;

use crate::array::{has_address, FloatDType};
use crate::call::{Call, ParamsKind};
use crate::cluster::kmeans::{self, KMeansError};
use crate::distance::{DistanceError, DistanceType};
use crate::dlpack::{DLDataType, DLDevice, DLDeviceType, DLPackError, DLTensorView, ViewError};
use crate::error::LibraryError;
use crate::ffi::{
    cuvsAceParams, cuvsCagraCompressionParams, cuvsCagraExtendParams, cuvsCagraIndexParams, cuvsCagraSearchParams,
    cuvsFilterType, cuvsIvfFlatIndexParams, cuvsIvfFlatSearchParams,
    cuvsVamanaIndexParams, Created,
};
use crate::neighbors::brute_force::BruteForceError;
use crate::neighbors::cagra::params::ace::{AceParams, AceParamsBuilder};
use crate::neighbors::cagra::params::compression::{CompressionParams, CompressionParamsBuilder};
use crate::neighbors::cagra::params::construct::{
    GraphBuildSet, GraphBuildUnset, IndexParams, IndexParamsBuilder, RequestedGraphBuild,
};
use crate::neighbors::cagra::params::extend::{ExtendParams, ExtendParamsBuilder};
use crate::neighbors::cagra::params::graph::{IvfPqGraphBuildParams, IvfPqGraphBuildParamsBuilder};
use crate::neighbors::cagra::{self, CagraError};
use crate::neighbors::filters::{Bitset, Filter, FilterError, SearchFilter};
use crate::neighbors::ivf_flat::{self, IvfFlatError};
use crate::neighbors::ivf_pq::{self, IvfPqError};
use crate::neighbors::vamana::{self, VamanaError};
use crate::path::NulError;
use crate::release::Refused;
use crate::resources::ResourcesError;

verus! {

/// Settings start with none given.
pub proof fn settings_start_empty()
    ensures
        forall|r: kmeans::params::ParamsBuilder| #[trigger]
            call_ensures(kmeans::params::Params::builder, (), r) ==> r.metric is None && r.n_clusters is None && r.init is None && r.max_iter is None && r.tol is None && r.n_init is None && r.oversampling_factor is None && r.batch_samples is None && r.batch_centroids is None && r.inertia_check is None && r.hierarchical is None && r.hierarchical_n_iters is None && r.streaming_batch_size is None,
        forall|r: CompressionParamsBuilder| #[trigger]
            call_ensures(CompressionParams::builder, (), r) ==> r.pq_bits is None && r.pq_dim is None && r.vq_n_centers is None && r.kmeans_n_iters is None && r.vq_kmeans_trainset_fraction is None && r.pq_kmeans_trainset_fraction is None,
        forall|r: AceParamsBuilder| #[trigger]
            call_ensures(AceParams::builder, (), r) ==> r.npartitions is None && r.ef_construction is None && r.build_dir is None && r.use_disk is None && r.max_host_memory_gb is None && r.max_gpu_memory_gb is None,
        forall|r: ExtendParamsBuilder| #[trigger]
            call_ensures(ExtendParams::builder, (), r) ==> r.max_chunk_size is None,
        forall|r: IvfPqGraphBuildParamsBuilder| #[trigger]
            call_ensures(IvfPqGraphBuildParams::builder, (), r) ==> r.n_lists is None && r.kmeans_n_iters is None && r.kmeans_trainset_fraction is None && r.pq_bits is None && r.pq_dim is None && r.n_probes is None && r.refinement_rate is None,
        forall|r: cagra::params::search::SearchParamsBuilder| #[trigger]
            call_ensures(cagra::params::search::SearchParams::builder, (), r) ==> r.max_queries is None && r.itopk_size is None && r.max_iterations is None && r.algo is None && r.team_size is None && r.search_width is None && r.min_iterations is None && r.thread_block_size is None && r.hashmap_mode is None && r.hashmap_min_bitlen is None && r.hashmap_max_fill_rate is None && r.num_random_samplings is None && r.rand_xor_mask is None && r.persistent is None && r.persistent_lifetime is None && r.persistent_device_usage is None,
        forall|r: IndexParamsBuilder<GraphBuildUnset>| #[trigger]
            call_ensures(IndexParams::builder, (), r) ==> r.metric is None && r.intermediate_graph_degree is None && r.graph_degree is None && r.compression is None && r.graph_build is None,
        forall|r: ivf_flat::params::IndexParamsBuilder| #[trigger]
            call_ensures(ivf_flat::params::IndexParams::builder, (), r) ==> r.metric is None && r.n_lists is None && r.kmeans_n_iters is None && r.kmeans_trainset_fraction is None && r.add_data_on_build is None && r.adaptive_centers is None && r.conservative_memory_allocation is None,
        forall|r: ivf_flat::params::SearchParamsBuilder| #[trigger]
            call_ensures(ivf_flat::params::SearchParams::builder, (), r) ==> r.n_probes is None,
        forall|r: ivf_pq::params::IndexParamsBuilder| #[trigger]
            call_ensures(ivf_pq::params::IndexParams::builder, (), r) ==> r.metric is None && r.n_lists is None && r.kmeans_n_iters is None && r.kmeans_trainset_fraction is None && r.pq_bits is None && r.pq_dim is None && r.codebook_kind is None && r.codes_layout is None && r.force_random_rotation is None && r.conservative_memory_allocation is None && r.max_train_points_per_pq_code is None && r.add_data_on_build is None,
        forall|r: ivf_pq::params::SearchParamsBuilder| #[trigger]
            call_ensures(ivf_pq::params::SearchParams::builder, (), r) ==> r.n_probes is None && r.lut_dtype is None && r.internal_distance_dtype is None && r.coarse_search_dtype is None && r.max_internal_batch_size is None && r.preferred_shmem_carveout is None,
        forall|r: vamana::params::IndexParamsBuilder| #[trigger]
            call_ensures(vamana::params::IndexParams::builder, (), r) ==> r.metric is None && r.graph_degree is None && r.visited_size is None && r.vamana_iters is None && r.alpha is None && r.max_fraction is None && r.batch_base is None && r.queue_size is None && r.reverse_batchsize is None,
{
}

/// Each strategy method asks for the strategy that it is named after, and keeps
/// the other settings.
pub proof fn strategies_are_asked_for_by_name(
    options: IndexParamsBuilder<GraphBuildUnset>,
    rounds: usize,
    ace: AceParams,
    graph: IvfPqGraphBuildParams,
    r: IndexParamsBuilder<GraphBuildSet>,
)
    ensures
        call_ensures(IndexParamsBuilder::<GraphBuildUnset>::auto, (options,), r) ==> r.graph_build == Some(RequestedGraphBuild::Auto) && keeps(r, options),
        call_ensures(IndexParamsBuilder::<GraphBuildUnset>::nn_descent, (options,), r) ==> r.graph_build == Some(RequestedGraphBuild::NnDescent { nn_descent_niter: None }) && keeps(r, options),
        call_ensures(IndexParamsBuilder::<GraphBuildUnset>::nn_descent_with, (options, rounds), r) ==> r.graph_build == Some(RequestedGraphBuild::NnDescent { nn_descent_niter: Some(rounds) }) && keeps(r, options),
        call_ensures(IndexParamsBuilder::<GraphBuildUnset>::iterative_cagra_search, (options,), r) ==> r.graph_build == Some(RequestedGraphBuild::IterativeCagraSearch) && keeps(r, options),
        call_ensures(IndexParamsBuilder::<GraphBuildUnset>::ace, (options,), r) ==> r.graph_build == Some(RequestedGraphBuild::AceDefault) && keeps(r, options),
        call_ensures(IndexParamsBuilder::<GraphBuildUnset>::ace_with, (options, ace), r) ==> r.graph_build == Some(RequestedGraphBuild::Ace(ace)) && keeps(r, options),
        call_ensures(IndexParamsBuilder::<GraphBuildUnset>::ivf_pq, (options,), r) ==> r.graph_build == Some(RequestedGraphBuild::IvfPqDefault) && keeps(r, options),
        call_ensures(IndexParamsBuilder::<GraphBuildUnset>::ivf_pq_with, (options, graph), r) ==> r.graph_build == Some(RequestedGraphBuild::IvfPq(graph)) && keeps(r, options),
{
}

/// Everything but the strategy is as in other settings.
pub open spec fn keeps<S, T>(a: IndexParamsBuilder<S>, b: IndexParamsBuilder<T>) -> bool {
    a.metric == b.metric && a.intermediate_graph_degree == b.intermediate_graph_degree && a.graph_degree
        == b.graph_degree && a.compression == b.compression
}

/// Parameters without settings hold the record as the library made it.
pub proof fn bare_parameters_hold_the_defaults(error: LibraryError)
    ensures
        forall|c: Created<cuvsCagraCompressionParams>, r: Result<CompressionParams, CagraError>| #[trigger]
            call_ensures(CompressionParams::try_new, (Ok(c),), r) ==> (r matches Ok(params) && params.handle == c.handle
                && params.record == c.record),
        forall|r: Result<CompressionParams, CagraError>| #[trigger]
            call_ensures(CompressionParams::try_new, (Err(error),), r) ==> (r matches Err(CagraError::Library(e)) && e == error),
        forall|c: Created<cuvsAceParams>, r: Result<AceParams, CagraError>| #[trigger]
            call_ensures(AceParams::try_new, (Ok(c),), r) ==> (r matches Ok(params) && params.handle == c.handle
                && params.record == c.record),
        forall|r: Result<AceParams, CagraError>| #[trigger]
            call_ensures(AceParams::try_new, (Err(error),), r) ==> (r matches Err(CagraError::Library(e)) && e == error),
        forall|c: Created<cuvsCagraExtendParams>, r: Result<ExtendParams, CagraError>| #[trigger]
            call_ensures(ExtendParams::try_new, (Ok(c),), r) ==> (r matches Ok(params) && params.handle == c.handle
                && params.record == c.record),
        forall|r: Result<ExtendParams, CagraError>| #[trigger]
            call_ensures(ExtendParams::try_new, (Err(error),), r) ==> (r matches Err(CagraError::Library(e)) && e == error),
        forall|c: Created<cuvsCagraSearchParams>, r: Result<cagra::params::search::SearchParams, CagraError>| #[trigger]
            call_ensures(cagra::params::search::SearchParams::try_new, (Ok(c),), r) ==> (r matches Ok(params) && params.handle == c.handle
                && params.record == c.record),
        forall|r: Result<cagra::params::search::SearchParams, CagraError>| #[trigger]
            call_ensures(cagra::params::search::SearchParams::try_new, (Err(error),), r) ==> (r matches Err(CagraError::Library(e)) && e == error),
        forall|c: Created<cuvsCagraIndexParams>, r: Result<IndexParams, CagraError>| #[trigger]
            call_ensures(IndexParams::try_new, (Ok(c),), r) ==> (r matches Ok(params) && params.handle == c.handle
                && params.record == c.record && params.graph_build_owner is None && params.compression is None && params.default_graph_build_params
                == c.record.graph_build_params),
        forall|r: Result<IndexParams, CagraError>| #[trigger]
            call_ensures(IndexParams::try_new, (Err(error),), r) ==> (r matches Err(CagraError::Library(e)) && e == error),
        forall|c: Created<cuvsIvfFlatIndexParams>, r: Result<ivf_flat::params::IndexParams, IvfFlatError>| #[trigger]
            call_ensures(ivf_flat::params::IndexParams::try_new, (Ok(c),), r) ==> (r matches Ok(params) && params.handle == c.handle
                && params.record == c.record),
        forall|r: Result<ivf_flat::params::IndexParams, IvfFlatError>| #[trigger]
            call_ensures(ivf_flat::params::IndexParams::try_new, (Err(error),), r) ==> (r matches Err(IvfFlatError::Library(e)) && e == error),
        forall|c: Created<cuvsIvfFlatSearchParams>, r: Result<ivf_flat::params::SearchParams, IvfFlatError>| #[trigger]
            call_ensures(ivf_flat::params::SearchParams::try_new, (Ok(c),), r) ==> (r matches Ok(params) && params.handle == c.handle
                && params.record == c.record),
        forall|r: Result<ivf_flat::params::SearchParams, IvfFlatError>| #[trigger]
            call_ensures(ivf_flat::params::SearchParams::try_new, (Err(error),), r) ==> (r matches Err(IvfFlatError::Library(e)) && e == error),
        forall|c: Created<cuvsVamanaIndexParams>, r: Result<vamana::params::IndexParams, VamanaError>| #[trigger]
            call_ensures(vamana::params::IndexParams::try_new, (Ok(c),), r) ==> (r matches Ok(params) && params.handle == c.handle
                && params.record == c.record),
        forall|r: Result<vamana::params::IndexParams, VamanaError>| #[trigger]
            call_ensures(vamana::params::IndexParams::try_new, (Err(error),), r) ==> (r matches Err(VamanaError::Library(e)) && e == error),
{
}

/// Parameters derived from HNSW parameters hold the record as the library left
/// it and are otherwise what they were; where the derivation failed they are
/// given up. ACE parameters whose directory was set are what they were; where
/// it could not be set they are given up.
pub proof fn later_answers_are_taken_up(
    params: IndexParams,
    record: cuvsCagraIndexParams,
    ace: AceParams,
    half: IvfPqGraphBuildParams,
    error: LibraryError,
)
    ensures
        forall|r: Result<IndexParams, Refused<CagraError>>| #[trigger]
            call_ensures(IndexParams::hnsw_params_derived, (params, Ok(record)), r) ==> (r matches Ok(p) && p.record
                == record && p.handle == params.handle && p.compression == params.compression && p.graph_build_owner
                == params.graph_build_owner && p.default_graph_build_params == params.default_graph_build_params),
        forall|r: Result<IndexParams, Refused<CagraError>>| #[trigger]
            call_ensures(IndexParams::hnsw_params_derived, (params, Err(error)), r) ==> (r matches Err(refused)
                && refused.error == CagraError::Library(error) && (forall|calls: Vec<Call<'static>>| #[trigger]
                call_ensures(IndexParams::teardown, (params,), calls) ==> calls@ == refused.calls@)),
        forall|r: Result<AceParams, Refused<CagraError>>| #[trigger]
            call_ensures(AceParams::build_dir_set, (ace, Ok(())), r) ==> (r matches Ok(p) && p == ace),
        forall|r: Result<AceParams, Refused<CagraError>>| #[trigger]
            call_ensures(AceParams::build_dir_set, (ace, Err(error)), r) ==> (r matches Err(refused) && refused.error
                == CagraError::Library(error) && refused.calls@.len() == 1 && refused.calls@[0]
                == (Call::ParamsDestroy { kind: ParamsKind::Ace, params: ace.handle })),
        forall|r: Result<IvfPqGraphBuildParams, Refused<CagraError>>| #[trigger]
            call_ensures(IvfPqGraphBuildParams::with_search, (half, Err(error)), r) ==> (r matches Err(refused)
                && refused.error == CagraError::Library(error) && crate::laws::lifetimes::graph_ends(
                refused.calls@,
                half,
            )),
{
    crate::laws::lifetimes::lemma_graph_ends(half);
}

/// An element type is named in messages by its class number and its width.
pub proof fn element_types_are_named(dtype: DLDataType, index_dtype: DLDataType)
    ensures
        crate::neighbors::dtype::dtype_text(dtype) == "code="@ + crate::text::decimal(dtype.code as nat) + " bits="@
            + crate::text::decimal(dtype.bits as nat),
        forall|r: String| #[trigger]
            call_ensures(crate::neighbors::dtype::mismatch_text, (index_dtype, dtype), r) ==> r@
                == "queries dtype must match the index dtype exactly: index has "@ + "code="@ + crate::text::decimal(
                index_dtype.code as nat,
            ) + " bits="@ + crate::text::decimal(index_dtype.bits as nat) + ", got "@ + "code="@ + crate::text::decimal(
                dtype.code as nat,
            ) + " bits="@ + crate::text::decimal(dtype.bits as nat),
{
    let a = "code="@ + crate::text::decimal(index_dtype.code as nat) + " bits="@ + crate::text::decimal(
        index_dtype.bits as nat,
    );
    let b = "code="@ + crate::text::decimal(dtype.code as nat) + " bits="@ + crate::text::decimal(dtype.bits as nat);
    let head = "queries dtype must match the index dtype exactly: index has "@;
    assert(head + a + ", got "@ + b =~= head + "code="@ + crate::text::decimal(index_dtype.code as nat) + " bits="@
        + crate::text::decimal(index_dtype.bits as nat) + ", got "@ + "code="@ + crate::text::decimal(
        dtype.code as nat,
    ) + " bits="@ + crate::text::decimal(dtype.bits as nat));
}

/// An error keeps what it was made from, under the variant of its origin.
pub proof fn errors_keep_their_origin(library: LibraryError, tensor: DLPackError, nul: NulError, view: ViewError)
    ensures
        forall|r: ResourcesError| #[trigger]
            call_ensures(<ResourcesError as From<LibraryError>>::from, (library,), r) ==> (r matches ResourcesError::Library(e) && e == library),
        forall|r: DistanceError| #[trigger]
            call_ensures(<DistanceError as From<LibraryError>>::from, (library,), r) ==> (r matches DistanceError::Library(e) && e == library),
        forall|r: DistanceError| #[trigger]
            call_ensures(<DistanceError as From<DLPackError>>::from, (tensor,), r) ==> (r matches DistanceError::DLPack(e) && e == tensor),
        forall|r: KMeansError| #[trigger]
            call_ensures(<KMeansError as From<LibraryError>>::from, (library,), r) ==> (r matches KMeansError::Library(e) && e == library),
        forall|r: KMeansError| #[trigger]
            call_ensures(<KMeansError as From<DLPackError>>::from, (tensor,), r) ==> (r matches KMeansError::DLPack(e) && e == tensor),
        forall|r: BruteForceError| #[trigger]
            call_ensures(<BruteForceError as From<LibraryError>>::from, (library,), r) ==> (r matches BruteForceError::Library(e) && e == library),
        forall|r: BruteForceError| #[trigger]
            call_ensures(<BruteForceError as From<DLPackError>>::from, (tensor,), r) ==> (r matches BruteForceError::DLPack(e) && e == tensor),
        forall|r: CagraError| #[trigger]
            call_ensures(<CagraError as From<LibraryError>>::from, (library,), r) ==> (r matches CagraError::Library(e) && e == library),
        forall|r: CagraError| #[trigger]
            call_ensures(<CagraError as From<DLPackError>>::from, (tensor,), r) ==> (r matches CagraError::DLPack(e) && e == tensor),
        forall|r: IvfFlatError| #[trigger]
            call_ensures(<IvfFlatError as From<LibraryError>>::from, (library,), r) ==> (r matches IvfFlatError::Library(e) && e == library),
        forall|r: IvfFlatError| #[trigger]
            call_ensures(<IvfFlatError as From<DLPackError>>::from, (tensor,), r) ==> (r matches IvfFlatError::DLPack(e) && e == tensor),
        forall|r: IvfPqError| #[trigger]
            call_ensures(<IvfPqError as From<LibraryError>>::from, (library,), r) ==> (r matches IvfPqError::Library(e) && e == library),
        forall|r: IvfPqError| #[trigger]
            call_ensures(<IvfPqError as From<DLPackError>>::from, (tensor,), r) ==> (r matches IvfPqError::DLPack(e) && e == tensor),
        forall|r: VamanaError| #[trigger]
            call_ensures(<VamanaError as From<LibraryError>>::from, (library,), r) ==> (r matches VamanaError::Library(e) && e == library),
        forall|r: VamanaError| #[trigger]
            call_ensures(<VamanaError as From<DLPackError>>::from, (tensor,), r) ==> (r matches VamanaError::DLPack(e) && e == tensor),
        forall|r: BruteForceError| #[trigger]
            call_ensures(<BruteForceError as From<NulError>>::from, (nul,), r) ==> (r matches BruteForceError::InvalidPath(e) && e == nul),
        forall|r: CagraError| #[trigger]
            call_ensures(<CagraError as From<NulError>>::from, (nul,), r) ==> (r matches CagraError::InvalidPath(e) && e == nul),
        forall|r: IvfFlatError| #[trigger]
            call_ensures(<IvfFlatError as From<NulError>>::from, (nul,), r) ==> (r matches IvfFlatError::InvalidPath(e) && e == nul),
        forall|r: IvfPqError| #[trigger]
            call_ensures(<IvfPqError as From<NulError>>::from, (nul,), r) ==> (r matches IvfPqError::InvalidPath(e) && e == nul),
        forall|r: VamanaError| #[trigger]
            call_ensures(<VamanaError as From<NulError>>::from, (nul,), r) ==> (r matches VamanaError::InvalidPath(e) && e == nul),
        forall|r: FilterError| #[trigger]
            call_ensures(<FilterError as From<DLPackError>>::from, (tensor,), r) ==> (r matches FilterError::Conversion(e) && e == tensor),
        forall|r: CagraError| #[trigger]
            call_ensures(<CagraError as From<ViewError>>::from, (view,), r) ==> match view {
                ViewError::Library(e) => r == CagraError::Library(e),
                ViewError::DLPack(e) => r == CagraError::DLPack(e),
            },
        forall|r: IvfFlatError| #[trigger]
            call_ensures(<IvfFlatError as From<ViewError>>::from, (view,), r) ==> match view {
                ViewError::Library(e) => r == IvfFlatError::Library(e),
                ViewError::DLPack(e) => r == IvfFlatError::DLPack(e),
            },
        forall|r: IvfPqError| #[trigger]
            call_ensures(<IvfPqError as From<ViewError>>::from, (view,), r) ==> match view {
                ViewError::Library(e) => r == IvfPqError::Library(e),
                ViewError::DLPack(e) => r == IvfPqError::DLPack(e),
            },
{
}

/// The remaining messages: the library's text, that of the tensor error, and one
/// for each way in which filter words are refused.
pub proof fn other_errors_tell_their_reason(
    library: LibraryError,
    tensor: DLPackError,
    text: String,
    told: String,
)
    requires
        call_ensures(DLPackError::to_string, (&tensor,), told),
    ensures
        call_ensures(ResourcesError::to_string, (&ResourcesError::Library(library),), text) ==> text@ == library.0@,
        call_ensures(DistanceError::to_string, (&DistanceError::Library(library),), text) ==> text@ == library.0@,
        call_ensures(DistanceError::to_string, (&DistanceError::DLPack(tensor),), text) ==> text@ == told@,
        call_ensures(ViewError::to_string, (&ViewError::Library(library),), text) ==> text@ == library.0@,
        call_ensures(ViewError::to_string, (&ViewError::DLPack(tensor),), text) ==> text@ == told@,
        call_ensures(FilterError::to_string, (&FilterError::InvalidRank,), text) ==> text@
            == "filter must be a 1-D tensor"@,
        call_ensures(FilterError::to_string, (&FilterError::InvalidDevice,), text) ==> text@
            == "filter must use device-accessible memory"@,
        call_ensures(FilterError::to_string, (&FilterError::InvalidDType,), text) ==> text@
            == "filter must use scalar 32-bit words (`u32` or reinterpretable `i32`)"@,
        call_ensures(FilterError::to_string, (&FilterError::NonContiguous,), text) ==> text@
            == "filter must be contiguous"@,
{
}

/// Equality of metrics, as it is computed: the same metric, and for the
/// Minkowski distance the same exponent or two exponents that are not numbers.
pub proof fn metric_equality_is_by_name_and_exponent(a: DistanceType, b: DistanceType, r: bool)
    requires
        call_ensures(<DistanceType as PartialEq>::eq, (&a, &b), r),
    ensures
        r <==> match (a, b) {
            (DistanceType::LpUnexpanded(p), DistanceType::LpUnexpanded(q)) => (p.nan() && q.nan()) || (!p.nan()
                && !q.nan() && p.value() == q.value()),
            _ => a == b,
        },
{
}

/// A filter made of a view is judged as that view is, and a search filter is
/// read as its variant says.
pub proof fn filters_are_made_of_views<'a>(view: DLTensorView<'a>, filter: SearchFilter<'a>)
    ensures
        forall|r: Result<Filter<'a, Bitset>, FilterError>| #[trigger]
            call_ensures(Filter::<'a, Bitset>::new::<DLTensorView<'a>>, (view,), r) ==> crate::laws::tensors::words_verdict(
                view,
                r,
            ),
        forall|r: cuvsFilterType| #[trigger]
            call_ensures(SearchFilter::filter_type, (&filter,), r) ==> (filter is Bitset <==> r == cuvsFilterType::BITSET)
                && (filter is Bitmap <==> r == cuvsFilterType::BITMAP),
        forall|r: bool| #[trigger] call_ensures(SearchFilter::uses_bitmap, (&filter,), r) ==> r == (filter is Bitmap),
{
}

/// A view of an array of floating-point elements shows host memory at the
/// address of the array, with the label asked for.
pub proof fn float_arrays_are_viewed_in_host_memory<'a, A, T: FloatDType>(
    arr: &'a ndarray::ArrayRef<A, ndarray::IxDyn>,
    r: Result<DLTensorView<'a>, DLPackError>,
)
    requires
        call_ensures(crate::array::array_view::<A, T>, (arr,), r),
    ensures
        r is Ok,
        r->Ok_0@.device == (DLDevice { device_type: DLDeviceType::kDLCPU, device_id: 0 }),
        r->Ok_0@.dtype == T::dtype(),
        has_address(arr, r->Ok_0@.data),
{
}

} // verus!

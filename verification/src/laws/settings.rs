//! What the settings of a parameter record come to.
//!
//! Each law speaks of a call and of what came back: a setting that is given is
//! what the record holds, whatever the library's default was, and every other
//! field is as the library made it.

use vstd::prelude::*;

use crate::binary::Binary32;
use crate::call::Call;
use crate::cluster::kmeans;
use crate::distance::DistanceType;
use crate::error::LibraryError;
use crate::ffi::{
    cuvsAceParams, cuvsCagraCompressionParams, cuvsCagraExtendParams, cuvsCagraGraphBuildAlgo, cuvsCagraIndexParams,
    cuvsCagraSearchParams, cuvsIvfFlatIndexParams, cuvsIvfFlatSearchParams, cuvsIvfPqIndexParams,
    cuvsIvfPqSearchParams, cuvsKMeansParams, cuvsVamanaIndexParams, Created,
};
use crate::neighbors::cagra::params::ace::{AceParams, AceParamsBuilder, AceSetup};
use crate::neighbors::cagra::params::compression::{CompressionParams, CompressionParamsBuilder};
use crate::neighbors::cagra::params::construct::{GraphBuildOwner, RequestedGraphBuild};
use crate::neighbors::cagra::params::extend::{ExtendParams, ExtendParamsBuilder};
use crate::neighbors::cagra::params::graph::{IvfPqGraphBuildParams, IvfPqGraphBuildParamsBuilder};
use crate::neighbors::cagra;
use crate::neighbors::{ivf_flat, ivf_pq, vamana};

verus! {

/// The argument that goes with a metric: the exponent of the Minkowski
/// distance, and the number two with every other metric.
pub open spec fn goes_with(metric: DistanceType, argument: Binary32) -> bool {
    match metric {
        DistanceType::LpUnexpanded(p) => argument == p,
        _ => argument.bits == 0x4000_0000,
    }
}

/// k-means parameters hold the settings that they were given.
pub proof fn kmeans_params_hold_their_settings(options: kmeans::params::ParamsBuilder, created: Created<cuvsKMeansParams>, params: kmeans::params::Params)
    requires
        call_ensures(kmeans::params::Params::new, (options, Ok(created)), Ok(params)),
    ensures
        params.handle == created.handle,
        options.metric matches Some(v) ==> params.record.metric == v.code(),
        options.metric is None ==> params.record.metric == created.record.metric,
        options.n_clusters matches Some(v) ==> params.record.n_clusters == v,
        options.n_clusters is None ==> params.record.n_clusters == created.record.n_clusters,
        options.init matches Some(v) ==> params.record.init == v.code(),
        options.init is None ==> params.record.init == created.record.init,
        options.max_iter matches Some(v) ==> params.record.max_iter == v,
        options.max_iter is None ==> params.record.max_iter == created.record.max_iter,
        options.tol matches Some(v) ==> params.record.tol == v,
        options.tol is None ==> params.record.tol == created.record.tol,
        options.n_init matches Some(v) ==> params.record.n_init == v,
        options.n_init is None ==> params.record.n_init == created.record.n_init,
        options.oversampling_factor matches Some(v) ==> params.record.oversampling_factor == v,
        options.oversampling_factor is None ==> params.record.oversampling_factor == created.record.oversampling_factor,
        options.batch_samples matches Some(v) ==> params.record.batch_samples == v,
        options.batch_samples is None ==> params.record.batch_samples == created.record.batch_samples,
        options.batch_centroids matches Some(v) ==> params.record.batch_centroids == v,
        options.batch_centroids is None ==> params.record.batch_centroids == created.record.batch_centroids,
        options.inertia_check matches Some(v) ==> params.record.inertia_check == v,
        options.inertia_check is None ==> params.record.inertia_check == created.record.inertia_check,
        options.hierarchical matches Some(v) ==> params.record.hierarchical == v,
        options.hierarchical is None ==> params.record.hierarchical == created.record.hierarchical,
        options.hierarchical_n_iters matches Some(v) ==> params.record.hierarchical_n_iters == v,
        options.hierarchical_n_iters is None ==> params.record.hierarchical_n_iters == created.record.hierarchical_n_iters,
        options.streaming_batch_size matches Some(v) ==> params.record.streaming_batch_size == v,
        options.streaming_batch_size is None ==> params.record.streaming_batch_size == created.record.streaming_batch_size,
{
}

/// CAGRA compression parameters hold the settings that they were given.
pub proof fn compression_params_hold_their_settings(options: CompressionParamsBuilder, created: Created<cuvsCagraCompressionParams>, params: CompressionParams)
    requires
        call_ensures(CompressionParams::new, (options, Ok(created)), Ok(params)),
    ensures
        params.handle == created.handle,
        options.pq_bits matches Some(v) ==> params.record.pq_bits == v,
        options.pq_bits is None ==> params.record.pq_bits == created.record.pq_bits,
        options.pq_dim matches Some(v) ==> params.record.pq_dim == v,
        options.pq_dim is None ==> params.record.pq_dim == created.record.pq_dim,
        options.vq_n_centers matches Some(v) ==> params.record.vq_n_centers == v,
        options.vq_n_centers is None ==> params.record.vq_n_centers == created.record.vq_n_centers,
        options.kmeans_n_iters matches Some(v) ==> params.record.kmeans_n_iters == v,
        options.kmeans_n_iters is None ==> params.record.kmeans_n_iters == created.record.kmeans_n_iters,
        options.vq_kmeans_trainset_fraction matches Some(v) ==> params.record.vq_kmeans_trainset_fraction == v,
        options.vq_kmeans_trainset_fraction is None ==> params.record.vq_kmeans_trainset_fraction == created.record.vq_kmeans_trainset_fraction,
        options.pq_kmeans_trainset_fraction matches Some(v) ==> params.record.pq_kmeans_trainset_fraction == v,
        options.pq_kmeans_trainset_fraction is None ==> params.record.pq_kmeans_trainset_fraction == created.record.pq_kmeans_trainset_fraction,
{
}

/// CAGRA extension parameters hold the settings that they were given.
pub proof fn extend_params_hold_their_settings(options: ExtendParamsBuilder, created: Created<cuvsCagraExtendParams>, params: ExtendParams)
    requires
        call_ensures(ExtendParams::new, (options, Ok(created)), Ok(params)),
    ensures
        params.handle == created.handle,
        options.max_chunk_size matches Some(v) ==> params.record.max_chunk_size == v,
        options.max_chunk_size is None ==> params.record.max_chunk_size == created.record.max_chunk_size,
{
}

/// CAGRA search parameters hold the settings that they were given.
pub proof fn cagra_search_params_hold_their_settings(options: cagra::params::search::SearchParamsBuilder, created: Created<cuvsCagraSearchParams>, params: cagra::params::search::SearchParams)
    requires
        call_ensures(cagra::params::search::SearchParams::new, (options, Ok(created)), Ok(params)),
    ensures
        params.handle == created.handle,
        options.max_queries matches Some(v) ==> params.record.max_queries == v,
        options.max_queries is None ==> params.record.max_queries == created.record.max_queries,
        options.itopk_size matches Some(v) ==> params.record.itopk_size == v,
        options.itopk_size is None ==> params.record.itopk_size == created.record.itopk_size,
        options.max_iterations matches Some(v) ==> params.record.max_iterations == v,
        options.max_iterations is None ==> params.record.max_iterations == created.record.max_iterations,
        options.algo matches Some(v) ==> params.record.algo == v.code(),
        options.algo is None ==> params.record.algo == created.record.algo,
        options.team_size matches Some(v) ==> params.record.team_size == v,
        options.team_size is None ==> params.record.team_size == created.record.team_size,
        options.search_width matches Some(v) ==> params.record.search_width == v,
        options.search_width is None ==> params.record.search_width == created.record.search_width,
        options.min_iterations matches Some(v) ==> params.record.min_iterations == v,
        options.min_iterations is None ==> params.record.min_iterations == created.record.min_iterations,
        options.thread_block_size matches Some(v) ==> params.record.thread_block_size == v,
        options.thread_block_size is None ==> params.record.thread_block_size == created.record.thread_block_size,
        options.hashmap_mode matches Some(v) ==> params.record.hashmap_mode == v.code(),
        options.hashmap_mode is None ==> params.record.hashmap_mode == created.record.hashmap_mode,
        options.hashmap_min_bitlen matches Some(v) ==> params.record.hashmap_min_bitlen == v,
        options.hashmap_min_bitlen is None ==> params.record.hashmap_min_bitlen == created.record.hashmap_min_bitlen,
        options.hashmap_max_fill_rate matches Some(v) ==> params.record.hashmap_max_fill_rate == v.value,
        options.hashmap_max_fill_rate is None ==> params.record.hashmap_max_fill_rate == created.record.hashmap_max_fill_rate,
        options.num_random_samplings matches Some(v) ==> params.record.num_random_samplings == v,
        options.num_random_samplings is None ==> params.record.num_random_samplings == created.record.num_random_samplings,
        options.rand_xor_mask matches Some(v) ==> params.record.rand_xor_mask == v,
        options.rand_xor_mask is None ==> params.record.rand_xor_mask == created.record.rand_xor_mask,
        options.persistent matches Some(v) ==> params.record.persistent == v,
        options.persistent is None ==> params.record.persistent == created.record.persistent,
        options.persistent_lifetime matches Some(v) ==> params.record.persistent_lifetime == v,
        options.persistent_lifetime is None ==> params.record.persistent_lifetime == created.record.persistent_lifetime,
        options.persistent_device_usage matches Some(v) ==> params.record.persistent_device_usage == v,
        options.persistent_device_usage is None ==> params.record.persistent_device_usage == created.record.persistent_device_usage,
{
}

/// IVF-Flat build parameters hold the settings that they were given, and with
/// a metric its argument.
pub proof fn ivf_flat_index_params_hold_their_settings(options: ivf_flat::params::IndexParamsBuilder, created: Created<cuvsIvfFlatIndexParams>, params: ivf_flat::params::IndexParams)
    requires
        call_ensures(ivf_flat::params::IndexParams::new, (options, Ok(created)), Ok(params)),
    ensures
        params.handle == created.handle,
        options.metric matches Some(v) ==> params.record.metric == v.code(),
        options.metric is None ==> params.record.metric == created.record.metric,
        options.n_lists matches Some(v) ==> params.record.n_lists == v,
        options.n_lists is None ==> params.record.n_lists == created.record.n_lists,
        options.kmeans_n_iters matches Some(v) ==> params.record.kmeans_n_iters == v,
        options.kmeans_n_iters is None ==> params.record.kmeans_n_iters == created.record.kmeans_n_iters,
        options.kmeans_trainset_fraction matches Some(v) ==> params.record.kmeans_trainset_fraction == v.value,
        options.kmeans_trainset_fraction is None ==> params.record.kmeans_trainset_fraction == created.record.kmeans_trainset_fraction,
        options.add_data_on_build matches Some(v) ==> params.record.add_data_on_build == v,
        options.add_data_on_build is None ==> params.record.add_data_on_build == created.record.add_data_on_build,
        options.adaptive_centers matches Some(v) ==> params.record.adaptive_centers == v,
        options.adaptive_centers is None ==> params.record.adaptive_centers == created.record.adaptive_centers,
        options.conservative_memory_allocation matches Some(v) ==> params.record.conservative_memory_allocation == v,
        options.conservative_memory_allocation is None ==> params.record.conservative_memory_allocation == created.record.conservative_memory_allocation,
        options.metric matches Some(v) ==> goes_with(v, params.record.metric_arg),
        options.metric is None ==> params.record.metric_arg == created.record.metric_arg,
{
}

/// IVF-Flat search parameters hold the settings that they were given.
pub proof fn ivf_flat_search_params_hold_their_settings(options: ivf_flat::params::SearchParamsBuilder, created: Created<cuvsIvfFlatSearchParams>, params: ivf_flat::params::SearchParams)
    requires
        call_ensures(ivf_flat::params::SearchParams::new, (options, Ok(created)), Ok(params)),
    ensures
        params.handle == created.handle,
        options.n_probes matches Some(v) ==> params.record.n_probes == v,
        options.n_probes is None ==> params.record.n_probes == created.record.n_probes,
{
}

/// IVF-PQ build parameters hold the settings that they were given, and with a
/// metric its argument.
pub proof fn ivf_pq_index_params_hold_their_settings(options: ivf_pq::params::IndexParamsBuilder, created: Created<cuvsIvfPqIndexParams>, params: ivf_pq::params::IndexParams)
    requires
        call_ensures(ivf_pq::params::IndexParams::new, (options, Ok(created)), Ok(params)),
    ensures
        params.handle == created.handle,
        options.metric matches Some(v) ==> params.record.metric == v.code(),
        options.metric is None ==> params.record.metric == created.record.metric,
        options.n_lists matches Some(v) ==> params.record.n_lists == v,
        options.n_lists is None ==> params.record.n_lists == created.record.n_lists,
        options.kmeans_n_iters matches Some(v) ==> params.record.kmeans_n_iters == v,
        options.kmeans_n_iters is None ==> params.record.kmeans_n_iters == created.record.kmeans_n_iters,
        options.kmeans_trainset_fraction matches Some(v) ==> params.record.kmeans_trainset_fraction == v.value,
        options.kmeans_trainset_fraction is None ==> params.record.kmeans_trainset_fraction == created.record.kmeans_trainset_fraction,
        options.pq_bits matches Some(v) ==> params.record.pq_bits == v,
        options.pq_bits is None ==> params.record.pq_bits == created.record.pq_bits,
        options.pq_dim matches Some(v) ==> params.record.pq_dim == v,
        options.pq_dim is None ==> params.record.pq_dim == created.record.pq_dim,
        options.codebook_kind matches Some(v) ==> params.record.codebook_kind == v.code(),
        options.codebook_kind is None ==> params.record.codebook_kind == created.record.codebook_kind,
        options.codes_layout matches Some(v) ==> params.record.codes_layout == v.code(),
        options.codes_layout is None ==> params.record.codes_layout == created.record.codes_layout,
        options.force_random_rotation matches Some(v) ==> params.record.force_random_rotation == v,
        options.force_random_rotation is None ==> params.record.force_random_rotation == created.record.force_random_rotation,
        options.conservative_memory_allocation matches Some(v) ==> params.record.conservative_memory_allocation == v,
        options.conservative_memory_allocation is None ==> params.record.conservative_memory_allocation == created.record.conservative_memory_allocation,
        options.max_train_points_per_pq_code matches Some(v) ==> params.record.max_train_points_per_pq_code == v,
        options.max_train_points_per_pq_code is None ==> params.record.max_train_points_per_pq_code == created.record.max_train_points_per_pq_code,
        options.add_data_on_build matches Some(v) ==> params.record.add_data_on_build == v,
        options.add_data_on_build is None ==> params.record.add_data_on_build == created.record.add_data_on_build,
        options.metric matches Some(v) ==> goes_with(v, params.record.metric_arg),
        options.metric is None ==> params.record.metric_arg == created.record.metric_arg,
{
}

/// IVF-PQ search parameters hold the settings that they were given.
pub proof fn ivf_pq_search_params_hold_their_settings(options: ivf_pq::params::SearchParamsBuilder, created: Created<cuvsIvfPqSearchParams>, params: ivf_pq::params::SearchParams)
    requires
        call_ensures(ivf_pq::params::SearchParams::new, (options, Ok(created)), Ok(params)),
    ensures
        params.handle == created.handle,
        options.n_probes matches Some(v) ==> params.record.n_probes == v,
        options.n_probes is None ==> params.record.n_probes == created.record.n_probes,
        options.lut_dtype matches Some(v) ==> params.record.lut_dtype == v.code(),
        options.lut_dtype is None ==> params.record.lut_dtype == created.record.lut_dtype,
        options.internal_distance_dtype matches Some(v) ==> params.record.internal_distance_dtype == v.code(),
        options.internal_distance_dtype is None ==> params.record.internal_distance_dtype == created.record.internal_distance_dtype,
        options.coarse_search_dtype matches Some(v) ==> params.record.coarse_search_dtype == v.code(),
        options.coarse_search_dtype is None ==> params.record.coarse_search_dtype == created.record.coarse_search_dtype,
        options.max_internal_batch_size matches Some(v) ==> params.record.max_internal_batch_size == v,
        options.max_internal_batch_size is None ==> params.record.max_internal_batch_size == created.record.max_internal_batch_size,
        options.preferred_shmem_carveout matches Some(v) ==> params.record.preferred_shmem_carveout == v.value,
        options.preferred_shmem_carveout is None ==> params.record.preferred_shmem_carveout == created.record.preferred_shmem_carveout,
{
}

/// Vamana build parameters hold the settings that they were given.
pub proof fn vamana_index_params_hold_their_settings(options: vamana::params::IndexParamsBuilder, created: Created<cuvsVamanaIndexParams>, params: vamana::params::IndexParams)
    requires
        call_ensures(vamana::params::IndexParams::new, (options, Ok(created)), Ok(params)),
    ensures
        params.handle == created.handle,
        options.metric matches Some(v) ==> params.record.metric == v.code(),
        options.metric is None ==> params.record.metric == created.record.metric,
        options.graph_degree matches Some(v) ==> params.record.graph_degree == v,
        options.graph_degree is None ==> params.record.graph_degree == created.record.graph_degree,
        options.visited_size matches Some(v) ==> params.record.visited_size == v,
        options.visited_size is None ==> params.record.visited_size == created.record.visited_size,
        options.vamana_iters matches Some(v) ==> params.record.vamana_iters == v,
        options.vamana_iters is None ==> params.record.vamana_iters == created.record.vamana_iters,
        options.alpha matches Some(v) ==> params.record.alpha == v,
        options.alpha is None ==> params.record.alpha == created.record.alpha,
        options.max_fraction matches Some(v) ==> params.record.max_fraction == v,
        options.max_fraction is None ==> params.record.max_fraction == created.record.max_fraction,
        options.batch_base matches Some(v) ==> params.record.batch_base == v,
        options.batch_base is None ==> params.record.batch_base == created.record.batch_base,
        options.queue_size matches Some(v) ==> params.record.queue_size == v,
        options.queue_size is None ==> params.record.queue_size == created.record.queue_size,
        options.reverse_batchsize matches Some(v) ==> params.record.reverse_batchsize == v,
        options.reverse_batchsize is None ==> params.record.reverse_batchsize == created.record.reverse_batchsize,
{
}

/// ACE parameters hold the settings that they were given. The directory is not
/// written into the record: it is handed to the C library, for this record, as
/// the bytes given and a final zero.
pub proof fn ace_params_hold_their_settings(options: AceParamsBuilder, created: Created<cuvsAceParams>, setup: AceSetup)
    requires
        call_ensures(AceParams::new, (options, Ok(created)), Ok(setup)),
    ensures
        setup.params.handle == created.handle,
        options.npartitions matches Some(v) ==> setup.params.record.npartitions == v,
        options.npartitions is None ==> setup.params.record.npartitions == created.record.npartitions,
        options.ef_construction matches Some(v) ==> setup.params.record.ef_construction == v,
        options.ef_construction is None ==> setup.params.record.ef_construction == created.record.ef_construction,
        options.use_disk matches Some(v) ==> setup.params.record.use_disk == v,
        options.use_disk is None ==> setup.params.record.use_disk == created.record.use_disk,
        options.max_host_memory_gb matches Some(v) ==> setup.params.record.max_host_memory_gb == v,
        options.max_host_memory_gb is None ==> setup.params.record.max_host_memory_gb == created.record.max_host_memory_gb,
        options.max_gpu_memory_gb matches Some(v) ==> setup.params.record.max_gpu_memory_gb == v,
        options.max_gpu_memory_gb is None ==> setup.params.record.max_gpu_memory_gb == created.record.max_gpu_memory_gb,
        setup.params.record.build_dir == created.record.build_dir,
        options.build_dir is None ==> setup.set_build_dir is None,
        options.build_dir matches Some(dir) ==> (setup.set_build_dir matches Some(Call::AceParamsSetBuildDir {
            params,
            path,
        }) && params == created.handle && path@.len() == dir@.len() + 1 && path@.drop_last() == dir@ && path@.last() == 0),
{
    if options.build_dir is Some {
        let dir = options.build_dir->0@;
        assert(dir.push(0u8).drop_last() =~= dir);
    }
}

/// IVF-PQ graph-build parameters hold the settings that they were given, each
/// in the record that it belongs to, and keep everything else.
pub proof fn graph_build_params_hold_their_settings(
    options: IvfPqGraphBuildParamsBuilder,
    allocated: IvfPqGraphBuildParams,
    params: IvfPqGraphBuildParams,
)
    requires
        call_ensures(IvfPqGraphBuildParams::new, (options, allocated), params),
    ensures
        params.address == allocated.address,
        params.inner.ivf_pq_build_params == allocated.inner.ivf_pq_build_params,
        params.inner.ivf_pq_search_params == allocated.inner.ivf_pq_search_params,
        options.refinement_rate matches Some(v) ==> params.inner.refinement_rate == v,
        options.refinement_rate is None ==> params.inner.refinement_rate == allocated.inner.refinement_rate,
        options.n_lists matches Some(v) ==> params.build.n_lists == v,
        options.n_lists is None ==> params.build.n_lists == allocated.build.n_lists,
        options.kmeans_n_iters matches Some(v) ==> params.build.kmeans_n_iters == v,
        options.kmeans_n_iters is None ==> params.build.kmeans_n_iters == allocated.build.kmeans_n_iters,
        options.kmeans_trainset_fraction matches Some(v) ==> params.build.kmeans_trainset_fraction == v,
        options.kmeans_trainset_fraction is None ==> params.build.kmeans_trainset_fraction == allocated.build.kmeans_trainset_fraction,
        options.pq_bits matches Some(v) ==> params.build.pq_bits == v,
        options.pq_bits is None ==> params.build.pq_bits == allocated.build.pq_bits,
        options.pq_dim matches Some(v) ==> params.build.pq_dim == v,
        options.pq_dim is None ==> params.build.pq_dim == allocated.build.pq_dim,
        params.build.metric == allocated.build.metric,
        params.build.metric_arg == allocated.build.metric_arg,
        params.build.add_data_on_build == allocated.build.add_data_on_build,
        params.build.codebook_kind == allocated.build.codebook_kind,
        params.build.force_random_rotation == allocated.build.force_random_rotation,
        params.build.conservative_memory_allocation == allocated.build.conservative_memory_allocation,
        params.build.max_train_points_per_pq_code == allocated.build.max_train_points_per_pq_code,
        params.build.codes_layout == allocated.build.codes_layout,
        params.search is Some <==> allocated.search is Some,
        allocated.search is Some && options.n_probes is Some ==> params.search->0.n_probes == options.n_probes->0,
        allocated.search is Some && options.n_probes is None ==> params.search->0.n_probes
            == allocated.search->0.n_probes,
        allocated.search is Some ==> params.search->0.lut_dtype == allocated.search->0.lut_dtype,
        allocated.search is Some ==> params.search->0.internal_distance_dtype == allocated.search->0.internal_distance_dtype,
        allocated.search is Some ==> params.search->0.coarse_search_dtype == allocated.search->0.coarse_search_dtype,
        allocated.search is Some ==> params.search->0.max_internal_batch_size == allocated.search->0.max_internal_batch_size,
        allocated.search is Some ==> params.search->0.preferred_shmem_carveout == allocated.search->0.preferred_shmem_carveout,
{
}

/// IVF-PQ graph-build parameters are made of the two records, at the address
/// given, with the refinement rate two.
pub proof fn graph_build_params_start_from_their_records(
    address: usize,
    build: Created<cuvsIvfPqIndexParams>,
    search: Created<cuvsIvfPqSearchParams>,
    half: IvfPqGraphBuildParams,
    whole: IvfPqGraphBuildParams,
)
    requires
        call_ensures(IvfPqGraphBuildParams::try_new, (address, Ok(build)), Ok(half)),
        call_ensures(IvfPqGraphBuildParams::with_search, (half, Ok(search)), Ok(whole)),
    ensures
        half.address == address,
        half.inner.ivf_pq_build_params == build.handle,
        half.inner.ivf_pq_search_params == 0,
        whole.address == address,
        whole.inner.ivf_pq_build_params == build.handle,
        whole.inner.ivf_pq_search_params == search.handle,
        whole.inner.refinement_rate.bits == 0x4000_0000,
        whole.build == build.record,
        whole.search == Some(search.record),
{
}

/// CAGRA build parameters hold the settings that they were given. The record
/// points at compression parameters that were given, and these belong to the
/// build parameters.
pub proof fn cagra_index_params_hold_their_settings<S>(
    options: cagra::params::construct::IndexParamsBuilder<S>,
    created: Created<cuvsCagraIndexParams>,
    default_ace: Option<Result<Created<cuvsAceParams>, LibraryError>>,
    params: cagra::params::construct::IndexParams,
)
    requires
        call_ensures(cagra::params::construct::IndexParams::new::<S>, (options, Ok(created), default_ace), Ok(params)),
    ensures
        params.handle == created.handle,
        params.default_graph_build_params == created.record.graph_build_params,
        options.metric matches Some(v) ==> params.record.metric == v.code(),
        options.metric is None ==> params.record.metric == created.record.metric,
        options.intermediate_graph_degree matches Some(v) ==> params.record.intermediate_graph_degree == v,
        options.intermediate_graph_degree is None ==> params.record.intermediate_graph_degree == created.record.intermediate_graph_degree,
        options.graph_degree matches Some(v) ==> params.record.graph_degree == v,
        options.graph_degree is None ==> params.record.graph_degree == created.record.graph_degree,
        options.compression matches Some(v) ==> params.record.compression == v.handle,
        options.compression is None ==> params.record.compression == created.record.compression,
        params.compression == options.compression,
{
}

/// CAGRA build parameters ask for the graph-build strategy that was given: its
/// algorithm, its parameters, and its number of iterations. Without one they
/// leave the library's choice.
pub proof fn cagra_index_params_follow_their_strategy<S>(
    options: cagra::params::construct::IndexParamsBuilder<S>,
    created: Created<cuvsCagraIndexParams>,
    default_ace: Option<Result<Created<cuvsAceParams>, LibraryError>>,
    params: cagra::params::construct::IndexParams,
)
    requires
        call_ensures(cagra::params::construct::IndexParams::new::<S>, (options, Ok(created), default_ace), Ok(params)),
        default_ace is Some <==> options.graph_build == Some(RequestedGraphBuild::AceDefault),
    ensures
        ({
            let defaults = created.record;
            let algo = params.record.build_algo;
            let pointer = params.record.graph_build_params;
            let rounds = params.record.nn_descent_niter;
            match options.graph_build {
                None => algo == defaults.build_algo && pointer == defaults.graph_build_params && rounds
                    == defaults.nn_descent_niter && params.graph_build_owner is None,
                Some(RequestedGraphBuild::Auto) => algo == cuvsCagraGraphBuildAlgo::AUTO_SELECT && pointer == 0
                    && rounds == defaults.nn_descent_niter && params.graph_build_owner is None,
                Some(RequestedGraphBuild::NnDescent { nn_descent_niter }) => {
                    &&& algo == cuvsCagraGraphBuildAlgo::NN_DESCENT
                    &&& pointer == 0
                    &&& params.graph_build_owner is None
                    &&& nn_descent_niter matches Some(n) ==> rounds == n
                    &&& nn_descent_niter is None ==> rounds == defaults.nn_descent_niter
                },
                Some(RequestedGraphBuild::IterativeCagraSearch) => algo
                    == cuvsCagraGraphBuildAlgo::ITERATIVE_CAGRA_SEARCH && pointer == 0 && rounds
                    == defaults.nn_descent_niter && params.graph_build_owner is None,
                Some(RequestedGraphBuild::AceDefault) => {
                    &&& algo == cuvsCagraGraphBuildAlgo::ACE
                    &&& rounds == defaults.nn_descent_niter
                    &&& default_ace matches Some(Ok(made)) && pointer == made.handle
                    &&& params.graph_build_owner matches Some(GraphBuildOwner::Ace(held)) && held.handle == pointer
                        && held.record == default_ace->0->Ok_0.record
                },
                Some(RequestedGraphBuild::Ace(ace)) => algo == cuvsCagraGraphBuildAlgo::ACE && pointer == ace.handle
                    && rounds == defaults.nn_descent_niter && params.graph_build_owner == Some(
                    GraphBuildOwner::Ace(ace),
                ),
                Some(RequestedGraphBuild::IvfPqDefault) => algo == cuvsCagraGraphBuildAlgo::IVF_PQ && pointer
                    == defaults.graph_build_params && rounds == defaults.nn_descent_niter
                    && params.graph_build_owner is None,
                Some(RequestedGraphBuild::IvfPq(graph)) => algo == cuvsCagraGraphBuildAlgo::IVF_PQ && pointer
                    == graph.address && rounds == defaults.nn_descent_niter && params.graph_build_owner == Some(
                    GraphBuildOwner::IvfPq(graph),
                ),
            }
        }),
{
}

/// A graph-build strategy put into parameters, whatever they had before, sets
/// the algorithm, the pointer and what is owned, and an iteration count that it
/// brings; it changes nothing else, and gives back the graph-build parameters
/// that were owned. Without a strategy nothing changes.
pub proof fn strategies_replace_one_another(
    params: &mut cagra::params::construct::IndexParams,
    strategy: Option<RequestedGraphBuild>,
    default_ace: Option<Result<Created<cuvsAceParams>, LibraryError>>,
    calls: Vec<Call<'static>>,
)
    requires
        default_ace is Some <==> strategy == Some(RequestedGraphBuild::AceDefault),
        call_ensures(
            cagra::params::construct::IndexParams::apply_graph_build,
            (params, strategy, default_ace),
            Ok(calls),
        ),
    ensures
        final(params).handle == old(params).handle,
        final(params).default_graph_build_params == old(params).default_graph_build_params,
        final(params).compression == old(params).compression,
        final(params).record.metric == old(params).record.metric,
        final(params).record.graph_degree == old(params).record.graph_degree,
        final(params).record.intermediate_graph_degree == old(params).record.intermediate_graph_degree,
        final(params).record.compression == old(params).record.compression,
        !(strategy matches Some(RequestedGraphBuild::NnDescent { nn_descent_niter: Some(_) }))
            ==> final(params).record.nn_descent_niter == old(params).record.nn_descent_niter,
        strategy is None ==> *final(params) == *old(params) && calls@.len() == 0,
        strategy is Some && old(params).graph_build_owner is None ==> calls@.len() == 0,
        strategy is Some ==> (old(params).graph_build_owner matches Some(GraphBuildOwner::Ace(ace)) ==> calls@ == seq![
            Call::ParamsDestroy { kind: crate::call::ParamsKind::Ace, params: ace.handle },
        ]),
        strategy is Some ==> (old(params).graph_build_owner matches Some(GraphBuildOwner::IvfPq(graph))
            ==> crate::laws::lifetimes::graph_ends(calls@, graph)),
        ({
            let algo = final(params).record.build_algo;
            let pointer = final(params).record.graph_build_params;
            let owner = final(params).graph_build_owner;
            match strategy {
                None => true,
                Some(RequestedGraphBuild::Auto) => algo == cuvsCagraGraphBuildAlgo::AUTO_SELECT && pointer == 0
                    && owner is None,
                Some(RequestedGraphBuild::NnDescent { nn_descent_niter }) => algo == cuvsCagraGraphBuildAlgo::NN_DESCENT
                    && pointer == 0 && owner is None && (nn_descent_niter matches Some(n)
                    ==> final(params).record.nn_descent_niter == n),
                Some(RequestedGraphBuild::IterativeCagraSearch) => algo
                    == cuvsCagraGraphBuildAlgo::ITERATIVE_CAGRA_SEARCH && pointer == 0 && owner is None,
                Some(RequestedGraphBuild::AceDefault) => algo == cuvsCagraGraphBuildAlgo::ACE && (
                default_ace matches Some(Ok(made)) && pointer == made.handle) && (owner matches Some(
                    GraphBuildOwner::Ace(held),
                ) && held.handle == pointer && held.record == default_ace->0->Ok_0.record),
                Some(RequestedGraphBuild::Ace(ace)) => algo == cuvsCagraGraphBuildAlgo::ACE && pointer == ace.handle
                    && owner == Some(GraphBuildOwner::Ace(ace)),
                Some(RequestedGraphBuild::IvfPqDefault) => algo == cuvsCagraGraphBuildAlgo::IVF_PQ && pointer
                    == old(params).default_graph_build_params && owner is None,
                Some(RequestedGraphBuild::IvfPq(graph)) => algo == cuvsCagraGraphBuildAlgo::IVF_PQ && pointer
                    == graph.address && owner == Some(GraphBuildOwner::IvfPq(graph)),
            }
        }),
{
    if strategy is Some {
        match params.graph_build_owner {
            Some(GraphBuildOwner::IvfPq(graph)) => {
                crate::laws::lifetimes::lemma_graph_ends(graph);
            },
            _ => {},
        }
    }
}

} // verus!

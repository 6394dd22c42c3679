//! Which settings are refused, and with what message.
//!
//! Each law gives the condition under which parameters are made and, rule by
//! rule in the order in which they are looked at, the message of the first one
//! that is broken. What was made before a refusal is given back.

use vstd::arithmetic::power2::pow2;
use vstd::prelude::*;

use crate::binary::{Binary32, Binary64};
use crate::call::{Call, ParamsKind};
use crate::cluster::kmeans;
use crate::distance::DistanceType;
use crate::error::LibraryError;
use crate::ffi::{
    cuvsAceParams, cuvsCagraCompressionParams, cuvsCagraExtendParams, cuvsCagraHashMode, cuvsCagraIndexParams,
    cuvsCagraSearchAlgo, cuvsCagraSearchParams, cuvsDistanceType, cuvsIvfFlatIndexParams, cuvsIvfFlatSearchParams,
    cuvsIvfPqIndexParams, cuvsIvfPqSearchParams, cuvsKMeansParams, cuvsVamanaIndexParams, Created,
};
use crate::neighbors::cagra::params::ace::{AceParams, AceParamsBuilder, AceSetup};
use crate::neighbors::cagra::params::compression::{CompressionParams, CompressionParamsBuilder};
use crate::neighbors::cagra::params::construct::RequestedGraphBuild;
use crate::neighbors::cagra::params::extend::{ExtendParams, ExtendParamsBuilder};
use crate::neighbors::cagra::{self, CagraError, HashMode, SearchAlgo};
use crate::neighbors::ivf_pq::{InternalDistanceDType, LutDType};
use crate::neighbors::{ivf_flat, ivf_pq, vamana};
use crate::release::Refused;
use crate::text::decimal;

verus! {

/// A number that is greater than zero and at most one.
pub open spec fn above_zero_up_to_one(x: Binary64) -> bool {
    !x.nan() && 0 < x.value() <= pow2(1074)
}

/// A number from zero to one.
pub open spec fn zero_to_one(x: Binary64) -> bool {
    !x.nan() && 0 <= x.value() <= pow2(1074)
}

/// The calls that give back a record, or none where none was made.
pub open spec fn gives_back<R>(
    calls: Seq<Call<'static>>,
    kind: ParamsKind,
    created: Result<Created<R>, LibraryError>,
) -> bool {
    match created {
        Ok(c) => calls.len() == 1 && calls[0] == (Call::ParamsDestroy { kind, params: c.handle }),
        Err(_) => calls.len() == 0,
    }
}

/// One is the number that the binary64 range checks compare with.
proof fn lemma_one_64()
    ensures
        (Binary64 { bits: crate::binary::ONE_64 }).value() == pow2(1074),
        !(Binary64 { bits: crate::binary::ONE_64 }).nan(),
        (Binary64 { bits: 0 }).value() == 0,
        !(Binary64 { bits: 0 }).nan(),
{
    crate::binary::one_64_is_one();
}

/// k-means parameters are refused where a count is out of its range.
pub proof fn kmeans_params_are_checked(
    options: kmeans::params::ParamsBuilder,
    created: Result<Created<cuvsKMeansParams>, LibraryError>,
    r: Result<kmeans::params::Params, Refused<kmeans::KMeansError>>,
)
    requires
        call_ensures(kmeans::params::Params::new, (options, created), r),
    ensures
        ({
            let broken_1 = options.n_clusters matches Some(n) && n <= 0;
            let broken_2 = options.max_iter matches Some(n) && n < 0;
            let broken_3 = options.n_init matches Some(n) && n <= 0;
            let broken_4 = options.hierarchical_n_iters matches Some(n) && n < 0;
            let broken_5 = options.streaming_batch_size matches Some(n) && n < 0;
            &&& r is Ok <==> created is Ok && !(broken_1 || broken_2 || broken_3 || broken_4 || broken_5)
            &&& !(broken_1 || broken_2 || broken_3 || broken_4 || broken_5) ==> (created matches Err(e) ==> (r matches Err(refused) && refused.error
                == kmeans::KMeansError::Library(e)))
            &&& broken_1 ==> (r matches Err(refused) && refused.error matches kmeans::KMeansError::Validation(s) && s@
                == "n_clusters must be > 0"@)
            &&& !broken_1 && broken_2 ==> (r matches Err(refused) && refused.error matches kmeans::KMeansError::Validation(s) && s@
                == "max_iter must be >= 0"@)
            &&& !broken_1 && !broken_2 && broken_3 ==> (r matches Err(refused) && refused.error matches kmeans::KMeansError::Validation(s) && s@
                == "n_init must be > 0"@)
            &&& !broken_1 && !broken_2 && !broken_3 && broken_4 ==> (r matches Err(refused) && refused.error matches kmeans::KMeansError::Validation(s) && s@
                == "hierarchical_n_iters must be >= 0"@)
            &&& !broken_1 && !broken_2 && !broken_3 && !broken_4 && broken_5 ==> (r matches Err(refused) && refused.error matches kmeans::KMeansError::Validation(s) && s@
                == "streaming_batch_size must be >= 0"@)
            &&& r matches Err(refused) ==> gives_back(refused.calls@, ParamsKind::KMeans, created)
        }),
{
}

/// Compression parameters are refused where the code width is not between four
/// and sixteen.
pub proof fn compression_params_are_checked(
    options: CompressionParamsBuilder,
    created: Result<Created<cuvsCagraCompressionParams>, LibraryError>,
    r: Result<CompressionParams, Refused<CagraError>>,
)
    requires
        call_ensures(CompressionParams::new, (options, created), r),
    ensures
        ({
            let broken_1 = options.pq_bits matches Some(n) && (n < 4 || n > 16);
            &&& r is Ok <==> created is Ok && !(broken_1)
            &&& !(broken_1) ==> (created matches Err(e) ==> (r matches Err(refused) && refused.error
                == CagraError::Library(e)))
            &&& broken_1 ==> (r matches Err(refused) && refused.error matches CagraError::Validation(s) && s@
                == "pq_bits must be within [4, 16], got "@ + decimal(options.pq_bits->0 as nat))
            &&& r matches Err(refused) ==> gives_back(refused.calls@, ParamsKind::CagraCompression, created)
        }),
{
}

/// CAGRA search parameters are refused where a size is not one that the kernels
/// have, or where the kernel and the hash table do not go together. A kernel or
/// mode that is not given is the one of the record.
pub proof fn cagra_search_params_are_checked(
    options: cagra::params::search::SearchParamsBuilder,
    created: Result<Created<cuvsCagraSearchParams>, LibraryError>,
    r: Result<cagra::params::search::SearchParams, Refused<CagraError>>,
)
    requires
        call_ensures(cagra::params::search::SearchParams::new, (options, created), r),
    ensures
        ({
            let tenth = (Binary32 { bits: 0x3DCC_CCCD }).value();
            let nine_tenths = (Binary32 { bits: 0x3F66_6666 }).value();
            let defaults = created->Ok_0.record;
            let single_cta = options.algo == Some(SearchAlgo::SingleCta) || (options.algo is None && defaults.algo
                == cuvsCagraSearchAlgo::SINGLE_CTA);
            let multi_cta = options.algo == Some(SearchAlgo::MultiCta) || (options.algo is None && defaults.algo
                == cuvsCagraSearchAlgo::MULTI_CTA);
            let small_hash = options.hashmap_mode == Some(HashMode::Small) || (options.hashmap_mode is None
                && defaults.hashmap_mode == cuvsCagraHashMode::SMALL);
            let broken_1 = single_cta && (options.itopk_size matches Some(n) && n > 512);
            let broken_2 = options.team_size matches Some(n) && n != 0 && n != 8 && n != 16 && n != 32;
            let broken_3 = options.thread_block_size matches Some(n) && n != 0 && n != 64 && n != 128 && n != 256 && n != 512 && n
                != 1024;
            let broken_4 = options.hashmap_min_bitlen matches Some(n) && n > 20;
            let broken_5 = options.hashmap_max_fill_rate matches Some(rate) && (rate.value.nan() || rate.value.value() < tenth
                || rate.value.value() >= nine_tenths);
            let broken_6 = multi_cta && small_hash;
            &&& r is Ok <==> created is Ok && !(broken_1 || broken_2 || broken_3 || broken_4 || broken_5 || broken_6)
            &&& created matches Err(e) ==> (r matches Err(refused) && refused.error == CagraError::Library(e))
            &&& created is Ok && broken_1 ==> (r matches Err(refused) && refused.error matches CagraError::Validation(s) && s@
                == "itopk_size cannot be larger than 512 for SingleCta, got "@ + decimal(options.itopk_size->0 as nat))
            &&& created is Ok && !broken_1 && broken_2 ==> (r matches Err(refused) && refused.error matches CagraError::Validation(s) && s@
                == "team_size must be 0 (auto), 8, 16, or 32, got "@ + decimal(options.team_size->0 as nat))
            &&& created is Ok && !broken_1 && !broken_2 && broken_3 ==> (r matches Err(refused) && refused.error matches CagraError::Validation(s) && s@
                == "thread_block_size must be 0, 64, 128, 256, 512, or 1024, got "@ + decimal(options.thread_block_size->0 as nat))
            &&& created is Ok && !broken_1 && !broken_2 && !broken_3 && broken_4 ==> (r matches Err(refused) && refused.error matches CagraError::Validation(s) && s@
                == "hashmap_min_bitlen must be <= 20, got "@ + decimal(options.hashmap_min_bitlen->0 as nat))
            &&& created is Ok && !broken_1 && !broken_2 && !broken_3 && !broken_4 && broken_5 ==> (r matches Err(refused) && refused.error matches CagraError::Validation(s) && s@
                == "hashmap_max_fill_rate must be in [0.1, 0.9), got "@ + options.hashmap_max_fill_rate->0.text@)
            &&& created is Ok && !broken_1 && !broken_2 && !broken_3 && !broken_4 && !broken_5 && broken_6 ==> (r matches Err(refused) && refused.error matches CagraError::Validation(s) && s@
                == "`small_hash` is not available when 'search_mode' is \"multi-cta\""@)
            &&& r matches Err(refused) ==> gives_back(refused.calls@, ParamsKind::CagraSearch, created)
        }),
{
}

/// IVF-Flat build parameters are refused without lists, or where the training
/// share is not above zero and at most one.
pub proof fn ivf_flat_index_params_are_checked(
    options: ivf_flat::params::IndexParamsBuilder,
    created: Result<Created<cuvsIvfFlatIndexParams>, LibraryError>,
    r: Result<ivf_flat::params::IndexParams, Refused<ivf_flat::IvfFlatError>>,
)
    requires
        call_ensures(ivf_flat::params::IndexParams::new, (options, created), r),
    ensures
        ({
            let broken_1 = options.n_lists matches Some(n) && n == 0;
            let broken_2 = options.kmeans_trainset_fraction matches Some(x) && !above_zero_up_to_one(x.value);
            &&& r is Ok <==> created is Ok && !(broken_1 || broken_2)
            &&& !(broken_1 || broken_2) ==> (created matches Err(e) ==> (r matches Err(refused) && refused.error
                == ivf_flat::IvfFlatError::Library(e)))
            &&& broken_1 ==> (r matches Err(refused) && refused.error matches ivf_flat::IvfFlatError::Validation(s) && s@
                == "n_lists must be > 0"@)
            &&& !broken_1 && broken_2 ==> (r matches Err(refused) && refused.error matches ivf_flat::IvfFlatError::Validation(s) && s@
                == "kmeans_trainset_fraction must be in (0, 1], got "@ + options.kmeans_trainset_fraction->0.text@)
            &&& r matches Err(refused) ==> gives_back(refused.calls@, ParamsKind::IvfFlatIndex, created)
        }),
{
    lemma_one_64();
}

/// IVF-Flat search parameters are refused without probes.
pub proof fn ivf_flat_search_params_are_checked(
    options: ivf_flat::params::SearchParamsBuilder,
    created: Result<Created<cuvsIvfFlatSearchParams>, LibraryError>,
    r: Result<ivf_flat::params::SearchParams, Refused<ivf_flat::IvfFlatError>>,
)
    requires
        call_ensures(ivf_flat::params::SearchParams::new, (options, created), r),
    ensures
        ({
            let broken_1 = options.n_probes matches Some(n) && n == 0;
            &&& r is Ok <==> created is Ok && !(broken_1)
            &&& !(broken_1) ==> (created matches Err(e) ==> (r matches Err(refused) && refused.error
                == ivf_flat::IvfFlatError::Library(e)))
            &&& broken_1 ==> (r matches Err(refused) && refused.error matches ivf_flat::IvfFlatError::Validation(s) && s@
                == "n_probes must be > 0"@)
            &&& r matches Err(refused) ==> gives_back(refused.calls@, ParamsKind::IvfFlatSearch, created)
        }),
{
}

/// IVF-PQ build parameters are refused without lists, with a training share out
/// of range, with a code width that is not between four and eight, or where the
/// codes of a vector do not fill whole bytes. A code width that is not given
/// counts as eight.
pub proof fn ivf_pq_index_params_are_checked(
    options: ivf_pq::params::IndexParamsBuilder,
    created: Result<Created<cuvsIvfPqIndexParams>, LibraryError>,
    r: Result<ivf_pq::params::IndexParams, Refused<ivf_pq::IvfPqError>>,
)
    requires
        call_ensures(ivf_pq::params::IndexParams::new, (options, created), r),
    ensures
        ({
            let bits: u32 = if options.pq_bits is Some {
                options.pq_bits->0
            } else {
                8
            };
            let broken_1 = options.n_lists matches Some(n) && n == 0;
            let broken_2 = options.kmeans_trainset_fraction matches Some(x) && !above_zero_up_to_one(x.value);
            let broken_3 = options.pq_bits matches Some(n) && (n < 4 || n > 8);
            let broken_4 = options.pq_dim matches Some(n) && (n * bits) % 8 != 0;
            &&& r is Ok <==> created is Ok && !(broken_1 || broken_2 || broken_3 || broken_4)
            &&& !(broken_1 || broken_2 || broken_3 || broken_4) ==> (created matches Err(e) ==> (r matches Err(refused) && refused.error
                == ivf_pq::IvfPqError::Library(e)))
            &&& broken_1 ==> (r matches Err(refused) && refused.error matches ivf_pq::IvfPqError::Validation(s) && s@
                == "n_lists must be > 0"@)
            &&& !broken_1 && broken_2 ==> (r matches Err(refused) && refused.error matches ivf_pq::IvfPqError::Validation(s) && s@
                == "kmeans_trainset_fraction must be in (0, 1], got "@ + options.kmeans_trainset_fraction->0.text@)
            &&& !broken_1 && !broken_2 && broken_3 ==> (r matches Err(refused) && refused.error matches ivf_pq::IvfPqError::Validation(s) && s@
                == "pq_bits must be within [4, 8], got "@ + decimal(options.pq_bits->0 as nat))
            &&& !broken_1 && !broken_2 && !broken_3 && broken_4 ==> (r matches Err(refused) && refused.error matches ivf_pq::IvfPqError::Validation(s) && s@
                == "pq_dim * pq_bits must be a multiple of 8, got pq_dim="@ + decimal(options.pq_dim->0 as nat) + ", pq_bits="@
                + decimal(bits as nat))
            &&& r matches Err(refused) ==> gives_back(refused.calls@, ParamsKind::IvfPqIndex, created)
        }),
{
    lemma_one_64();
}

/// IVF-PQ search parameters are refused without probes, with a share of shared
/// memory that is not between zero and one, or with accumulators narrower than
/// the lookup tables.
pub proof fn ivf_pq_search_params_are_checked(
    options: ivf_pq::params::SearchParamsBuilder,
    created: Result<Created<cuvsIvfPqSearchParams>, LibraryError>,
    r: Result<ivf_pq::params::SearchParams, Refused<ivf_pq::IvfPqError>>,
)
    requires
        call_ensures(ivf_pq::params::SearchParams::new, (options, created), r),
    ensures
        ({
            let broken_1 = options.n_probes matches Some(n) && n == 0;
            let broken_2 = options.preferred_shmem_carveout matches Some(x) && !zero_to_one(x.value);
            let broken_3 = options.lut_dtype == Some(LutDType::F32) && options.internal_distance_dtype == Some(
                InternalDistanceDType::F16,
            );
            &&& r is Ok <==> created is Ok && !(broken_1 || broken_2 || broken_3)
            &&& !(broken_1 || broken_2 || broken_3) ==> (created matches Err(e) ==> (r matches Err(refused) && refused.error
                == ivf_pq::IvfPqError::Library(e)))
            &&& broken_1 ==> (r matches Err(refused) && refused.error matches ivf_pq::IvfPqError::Validation(s) && s@
                == "n_probes must be > 0"@)
            &&& !broken_1 && broken_2 ==> (r matches Err(refused) && refused.error matches ivf_pq::IvfPqError::Validation(s) && s@
                == "preferred_shmem_carveout must be in [0, 1], got "@ + options.preferred_shmem_carveout->0.text@)
            &&& !broken_1 && !broken_2 && broken_3 ==> (r matches Err(refused) && refused.error matches ivf_pq::IvfPqError::Validation(s) && s@
                == "internal_distance_dtype must be at least as wide as lut_dtype"@)
            &&& r matches Err(refused) ==> gives_back(refused.calls@, ParamsKind::IvfPqSearch, created)
        }),
{
    lemma_one_64();
}

/// Vamana build parameters are refused with another metric than the squared
/// Euclidean one, with a degree that the kernels do not have, with no more
/// visited nodes than the degree, or with fewer than one iteration. What is not
/// given is that of the record.
pub proof fn vamana_index_params_are_checked(
    options: vamana::params::IndexParamsBuilder,
    created: Result<Created<cuvsVamanaIndexParams>, LibraryError>,
    r: Result<vamana::params::IndexParams, Refused<vamana::VamanaError>>,
)
    requires
        call_ensures(vamana::params::IndexParams::new, (options, created), r),
    ensures
        ({
            let defaults = created->Ok_0.record;
            let degree = if options.graph_degree is Some {
                options.graph_degree->0
            } else {
                defaults.graph_degree
            };
            let visited = if options.visited_size is Some {
                options.visited_size->0
            } else {
                defaults.visited_size
            };
            let iters = if options.vamana_iters is Some {
                options.vamana_iters->0
            } else {
                defaults.vamana_iters
            };
            let broken_1 = (options.metric matches Some(m) && !(m is L2Expanded)) || (options.metric is None && defaults.metric
                != cuvsDistanceType::L2Expanded);
            let broken_2 = degree != 32 && degree != 64 && degree != 128 && degree != 256;
            let broken_3 = visited <= degree;
            let broken_4 = !iters.value.finite();
            let broken_5 = iters.value.value() < pow2(149);
            &&& r is Ok <==> created is Ok && !(broken_1 || broken_2 || broken_3 || broken_4 || broken_5)
            &&& created matches Err(e) ==> (r matches Err(refused) && refused.error == vamana::VamanaError::Library(e))
            &&& created is Ok && broken_1 ==> (r matches Err(refused) && refused.error matches vamana::VamanaError::Validation(s) && s@
                == "Vamana currently only supports L2Expanded metric"@)
            &&& created is Ok && !broken_1 && broken_2 ==> (r matches Err(refused) && refused.error matches vamana::VamanaError::Validation(s) && s@
                == "graph_degree must be one of [32, 64, 128, 256], got "@ + decimal(degree as nat))
            &&& created is Ok && !broken_1 && !broken_2 && broken_3 ==> (r matches Err(refused) && refused.error matches vamana::VamanaError::Validation(s) && s@
                == "visited_size must be > graph_degree ("@ + decimal(degree as nat) + "), got "@ + decimal(visited as nat))
            &&& created is Ok && !broken_1 && !broken_2 && !broken_3 && broken_4 ==> (r matches Err(refused) && refused.error matches vamana::VamanaError::Validation(s) && s@
                == "vamana_iters must be finite, got "@ + iters.text@)
            &&& created is Ok && !broken_1 && !broken_2 && !broken_3 && !broken_4 && broken_5 ==> (r matches Err(refused) && refused.error matches vamana::VamanaError::Validation(s) && s@
                == "vamana_iters must be >= 1.0, got "@ + iters.text@)
            &&& r matches Err(refused) ==> gives_back(refused.calls@, ParamsKind::VamanaIndex, created)
        }),
{
    crate::binary::one_32_is_one();
}

/// CAGRA build parameters are refused without a degree, with an intermediate
/// degree below it, with no rounds of NN-Descent, or with compression under
/// another metric than the squared Euclidean one. Settings that are refused are
/// given up with all that they hold, and so is a record that was made.
pub proof fn cagra_index_params_are_checked<S>(
    options: cagra::params::construct::IndexParamsBuilder<S>,
    created: Result<Created<cuvsCagraIndexParams>, LibraryError>,
    default_ace: Option<Result<Created<cuvsAceParams>, LibraryError>>,
    r: Result<cagra::params::construct::IndexParams, Refused<CagraError>>,
)
    requires
        call_ensures(cagra::params::construct::IndexParams::new::<S>, (options, created, default_ace), r),
    ensures
        ({
            let broken_1 = options.graph_degree matches Some(n) && n == 0;
            let broken_2 = options.graph_degree is Some && options.intermediate_graph_degree is Some
                && options.intermediate_graph_degree->0 < options.graph_degree->0;
            let broken_3 = options.graph_build matches Some(RequestedGraphBuild::NnDescent {
                nn_descent_niter: Some(n),
            }) && n == 0;
            let broken_4 = options.compression is Some && options.metric is Some && !(options.metric->0 is L2Expanded);
            let sound = !broken_1 && !broken_2 && !broken_3 && !broken_4;
            &&& r is Ok <==> sound && created is Ok && !(default_ace matches Some(Err(_)))
            &&& sound ==> (created matches Err(e) ==> (r matches Err(refused) && refused.error
                == CagraError::Library(e)))
            &&& sound && created is Ok ==> (default_ace matches Some(Err(e)) ==> (r matches Err(refused)
                && refused.error == CagraError::Library(e)))
            &&& broken_1 ==> (r matches Err(refused) && refused.error matches CagraError::Validation(s) && s@
                == "graph_degree must be > 0"@)
            &&& !broken_1 && broken_2 ==> (r matches Err(refused) && refused.error matches CagraError::Validation(s)
                && s@ == "intermediate_graph_degree ("@ + decimal(options.intermediate_graph_degree->0 as nat)
                + ") must be >= graph_degree ("@ + decimal(options.graph_degree->0 as nat) + ")"@)
            &&& !broken_1 && !broken_2 && broken_3 ==> (r matches Err(refused)
                && refused.error matches CagraError::Validation(s) && s@ == "nn_descent_niter must be > 0"@)
            &&& !broken_1 && !broken_2 && !broken_3 && broken_4 ==> (r matches Err(refused)
                && refused.error matches CagraError::Validation(s) && s@
                == "VPQ compression is only supported with L2Expanded distance metric"@)
        }),
{
}

/// CAGRA parameters are derived from HNSW parameters that are all positive, by
/// a call that hands each of them over in its place.
pub proof fn hnsw_params_are_checked_and_handed_over(
    n_rows: i64,
    dim: i64,
    m: i32,
    ef_construction: i32,
    heuristic: cagra::HnswHeuristicType,
    metric: DistanceType,
    created: Result<Created<cuvsCagraIndexParams>, LibraryError>,
    r: Result<(cagra::params::construct::IndexParams, Call<'static>), Refused<CagraError>>,
)
    requires
        call_ensures(
            cagra::params::construct::IndexParams::from_hnsw_params,
            (n_rows, dim, m, ef_construction, heuristic, metric, created),
            r,
        ),
    ensures
        r is Ok <==> created is Ok && n_rows > 0 && dim > 0 && m > 0 && ef_construction > 0,
        r matches Ok((params, call)) ==> {
            &&& params.handle == created->Ok_0.handle
            &&& params.record == created->Ok_0.record
            &&& params.default_graph_build_params == created->Ok_0.record.graph_build_params
            &&& params.graph_build_owner is None && params.compression is None
            &&& call is CagraIndexParamsFromHnswParams
            &&& call->CagraIndexParamsFromHnswParams_params == params.handle
            &&& call->CagraIndexParamsFromHnswParams_n_rows == n_rows
            &&& call->CagraIndexParamsFromHnswParams_dim == dim
            &&& call->CagraIndexParamsFromHnswParams_m == m
            &&& call->CagraIndexParamsFromHnswParams_ef_construction == ef_construction
            &&& call->CagraIndexParamsFromHnswParams_heuristic == heuristic.code()
            &&& call->CagraIndexParamsFromHnswParams_metric == metric.code()
        },
        n_rows <= 0 ==> (r matches Err(refused) && refused.error matches CagraError::Validation(s) && s@
            == "n_rows must be > 0"@),
        n_rows > 0 && dim <= 0 ==> (r matches Err(refused) && refused.error matches CagraError::Validation(s) && s@
            == "dim must be > 0"@),
        n_rows > 0 && dim > 0 && m <= 0 ==> (r matches Err(refused) && refused.error matches CagraError::Validation(s)
            && s@ == "m must be > 0"@),
        n_rows > 0 && dim > 0 && m > 0 && ef_construction <= 0 ==> (r matches Err(refused)
            && refused.error matches CagraError::Validation(s) && s@ == "ef_construction must be > 0"@),
        r matches Err(refused) ==> gives_back(refused.calls@, ParamsKind::CagraIndex, created),
{
}

/// ACE parameters are refused where no record could be made, or where the build
/// directory has a zero byte in its name.
pub proof fn ace_params_are_checked(
    options: AceParamsBuilder,
    created: Result<Created<cuvsAceParams>, LibraryError>,
    r: Result<AceSetup, Refused<CagraError>>,
)
    requires
        call_ensures(AceParams::new, (options, created), r),
    ensures
        r is Ok <==> created is Ok && !(options.build_dir matches Some(dir) && dir@.contains(0u8)),
        created matches Err(e) ==> (r matches Err(refused) && refused.error == CagraError::Library(e)),
        created is Ok && r is Err ==> r->Err_0.error is InvalidPath,
        r matches Err(refused) ==> gives_back(refused.calls@, ParamsKind::Ace, created),
{
    if options.build_dir is Some {
        let dir = options.build_dir->0@;
        if crate::path::nul_free(dir) {
            assert(!dir.contains(0u8));
        } else {
            let i = choose|i: int| 0 <= i < dir.len() && dir[i] == 0;
            assert(dir[i] == 0u8);
        }
    }
}

/// CAGRA extension parameters are made of every setting, once there is a record.
pub proof fn extend_params_are_not_checked(
    options: ExtendParamsBuilder,
    created: Result<Created<cuvsCagraExtendParams>, LibraryError>,
    r: Result<ExtendParams, CagraError>,
)
    requires
        call_ensures(ExtendParams::new, (options, created), r),
    ensures
        r is Ok <==> created is Ok,
        created matches Err(e) ==> r == Err::<ExtendParams, CagraError>(CagraError::Library(e)),
{
}

} // verus!

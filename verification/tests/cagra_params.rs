use cuvs::binary::{Binary32, Binary64, Shown32};
use cuvs::call::{Call, ParamsKind};
use cuvs::distance::DistanceType;
use cuvs::error::LibraryError;
use cuvs::ffi::{
    cudaDataType_t, cuvsAceParams, cuvsCagraCompressionParams, cuvsCagraExtendParams, cuvsCagraGraphBuildAlgo,
    cuvsCagraHashMode, cuvsCagraHnswHeuristicType, cuvsCagraIndexParams, cuvsCagraSearchAlgo, cuvsCagraSearchParams,
    cuvsDistanceType, cuvsIvfPqCodebookGen, cuvsIvfPqIndexParams, cuvsIvfPqListLayout, cuvsIvfPqSearchParams, Created,
};
use cuvs::neighbors::cagra::params::ace::AceParamsBuilder;
use cuvs::neighbors::cagra::params::compression::CompressionParamsBuilder;
use cuvs::neighbors::cagra::params::construct::{GraphBuildOwner, IndexParamsBuilder, RequestedGraphBuild};
use cuvs::neighbors::cagra::params::extend::ExtendParamsBuilder;
use cuvs::neighbors::cagra::params::graph::IvfPqGraphBuildParamsBuilder;
use cuvs::neighbors::cagra::params::search::SearchParamsBuilder;
use cuvs::neighbors::cagra::{
    AceParams, CagraError, CompressionParams, ExtendParams, GraphBuildAlgo, HashMode, HnswHeuristicType, IndexParams,
    IvfPqGraphBuildParams, SearchAlgo, SearchParams,
};
use cuvs::release::Refused;

fn b32(x: f32) -> Binary32 {
    Binary32::from_bits(x.to_bits())
}

fn b64(x: f64) -> Binary64 {
    Binary64::from_bits(x.to_bits())
}

fn shown(x: f32) -> Shown32 {
    Shown32 { value: b32(x), text: x.to_string() }
}

fn failure(text: &str) -> LibraryError {
    LibraryError(text.to_string())
}

fn index_record() -> Created<cuvsCagraIndexParams> {
    Created {
        handle: 0x1000,
        record: cuvsCagraIndexParams {
            metric: cuvsDistanceType::L2Expanded,
            intermediate_graph_degree: 128,
            graph_degree: 64,
            build_algo: cuvsCagraGraphBuildAlgo::IVF_PQ,
            nn_descent_niter: 20,
            compression: 0,
            graph_build_params: 0x1800,
        },
    }
}

fn compression_record() -> Created<cuvsCagraCompressionParams> {
    Created {
        handle: 0x2000,
        record: cuvsCagraCompressionParams {
            pq_bits: 8,
            pq_dim: 0,
            vq_n_centers: 0,
            kmeans_n_iters: 25,
            vq_kmeans_trainset_fraction: b64(0.0),
            pq_kmeans_trainset_fraction: b64(0.0),
        },
    }
}

fn ace_record() -> Created<cuvsAceParams> {
    Created {
        handle: 0x3000,
        record: cuvsAceParams {
            npartitions: 0,
            ef_construction: 120,
            build_dir: 0x3800,
            use_disk: false,
            max_host_memory_gb: b64(0.0),
            max_gpu_memory_gb: b64(0.0),
        },
    }
}

fn search_record() -> Created<cuvsCagraSearchParams> {
    Created {
        handle: 0x4000,
        record: cuvsCagraSearchParams {
            max_queries: 0,
            itopk_size: 64,
            max_iterations: 0,
            algo: cuvsCagraSearchAlgo::SINGLE_CTA,
            team_size: 0,
            search_width: 1,
            min_iterations: 0,
            thread_block_size: 0,
            hashmap_mode: cuvsCagraHashMode::HASH,
            hashmap_min_bitlen: 0,
            hashmap_max_fill_rate: b32(0.5),
            num_random_samplings: 1,
            rand_xor_mask: 0x128394,
            persistent: false,
            persistent_lifetime: b32(2.0),
            persistent_device_usage: b32(1.0),
        },
    }
}

fn ivf_pq_build_record() -> Created<cuvsIvfPqIndexParams> {
    Created {
        handle: 0x5000,
        record: cuvsIvfPqIndexParams {
            metric: cuvsDistanceType::L2Expanded,
            metric_arg: b32(2.0),
            add_data_on_build: true,
            n_lists: 1024,
            kmeans_n_iters: 20,
            kmeans_trainset_fraction: b64(0.5),
            pq_bits: 8,
            pq_dim: 0,
            codebook_kind: cuvsIvfPqCodebookGen::CUVS_IVF_PQ_CODEBOOK_GEN_PER_SUBSPACE,
            force_random_rotation: false,
            conservative_memory_allocation: false,
            max_train_points_per_pq_code: 256,
            codes_layout: cuvsIvfPqListLayout::CUVS_IVF_PQ_LIST_LAYOUT_INTERLEAVED,
        },
    }
}

fn ivf_pq_search_record() -> Created<cuvsIvfPqSearchParams> {
    Created {
        handle: 0x6000,
        record: cuvsIvfPqSearchParams {
            n_probes: 20,
            lut_dtype: cudaDataType_t::CUDA_R_32F,
            internal_distance_dtype: cudaDataType_t::CUDA_R_32F,
            coarse_search_dtype: cudaDataType_t::CUDA_R_32F,
            max_internal_batch_size: 4096,
            preferred_shmem_carveout: b64(1.0),
        },
    }
}

fn ivf_pq_graph() -> IvfPqGraphBuildParams {
    IvfPqGraphBuildParams::try_new(0x7000, Ok(ivf_pq_build_record()))
        .unwrap()
        .with_search(Ok(ivf_pq_search_record()))
        .unwrap()
}

fn ace() -> AceParams {
    AceParams::new(AceParams::builder(), Ok(ace_record())).ok().unwrap().params
}

fn search(options: SearchParamsBuilder) -> Result<SearchParams, Refused<CagraError>> {
    SearchParams::new(options, Ok(search_record()))
}

fn destroys(call: &Call<'_>, what: ParamsKind, address: usize) -> bool {
    matches!(call, Call::ParamsDestroy { kind, params } if *kind == what && *params == address)
}

fn restores(call: &Call<'_>) -> bool {
    matches!(
        call,
        Call::CagraIndexParamsRestore {
            params: 0x1000,
            graph_build_params: 0x1800,
            build_algo: cuvsCagraGraphBuildAlgo::IVF_PQ,
        }
    )
}

#[test]
fn index_params_all_defaults() {
    let params = IndexParams::try_new(Ok(index_record())).unwrap();
    assert_eq!(params.record.metric, cuvsDistanceType::L2Expanded);
    assert_eq!(params.record.graph_degree, 64);
    assert!(params.graph_build_owner.is_none());
}

#[test]
fn index_params_with_values() {
    let options = IndexParamsBuilder {
        metric: Some(DistanceType::InnerProduct),
        graph_degree: Some(64),
        intermediate_graph_degree: Some(128),
        ..IndexParams::builder()
    };
    let params = IndexParams::new(options.nn_descent_with(10), Ok(index_record()), None).unwrap();

    assert_eq!(params.record.metric, cuvsDistanceType::InnerProduct);
    assert_eq!(params.record.graph_degree, 64);
    assert_eq!(params.record.intermediate_graph_degree, 128);
    assert_eq!(params.record.build_algo, cuvsCagraGraphBuildAlgo::NN_DESCENT);
    assert_eq!(params.record.nn_descent_niter, 10);
}

#[test]
fn index_params_rejects_zero_graph_degree() {
    let options = IndexParamsBuilder { graph_degree: Some(0), ..IndexParams::builder() };
    let err = IndexParams::new(options, Ok(index_record()), None).unwrap_err().error;
    assert!(err.to_string().contains("graph_degree must be > 0"));
    assert_eq!(err.to_string(), "invalid parameter: graph_degree must be > 0");
}

#[test]
fn index_params_rejects_invalid_intermediate_degree() {
    let options = IndexParamsBuilder {
        graph_degree: Some(64),
        intermediate_graph_degree: Some(32),
        ..IndexParams::builder()
    };
    let err = IndexParams::new(options, Ok(index_record()), None).unwrap_err().error;
    assert!(err.to_string().contains("intermediate_graph_degree (32) must be >= graph_degree (64)"));
}

#[test]
fn index_params_rejects_zero_niter() {
    let err = IndexParams::new(IndexParams::builder().nn_descent_with(0), Ok(index_record()), None).unwrap_err().error;
    assert!(err.to_string().contains("nn_descent_niter must be > 0"));
}

#[test]
fn index_params_switching_to_nn_descent_clears_default_graph_build_params() {
    let params = IndexParams::new(IndexParams::builder().nn_descent(), Ok(index_record()), None).unwrap();

    assert_eq!(params.record.build_algo, cuvsCagraGraphBuildAlgo::NN_DESCENT);
    assert_eq!(params.record.graph_build_params, 0);
    assert_eq!(params.record.nn_descent_niter, 20);
    assert!(params.graph_build_owner.is_none());
}

#[test]
fn index_params_rejects_non_l2_metric_with_compression() {
    let compression = CompressionParams::new(
        CompressionParamsBuilder { pq_bits: Some(8), ..CompressionParams::builder() },
        Ok(compression_record()),
    )
    .unwrap();
    let options = IndexParamsBuilder {
        metric: Some(DistanceType::InnerProduct),
        compression: Some(compression),
        ..IndexParams::builder()
    };
    let refused = IndexParams::new(options, Ok(index_record()), None).unwrap_err();

    assert!(refused.error.to_string().contains("VPQ compression is only supported with L2Expanded"));
    assert_eq!(refused.calls.len(), 2);
    assert!(destroys(&refused.calls[0], ParamsKind::CagraIndex, 0x1000));
    assert!(destroys(&refused.calls[1], ParamsKind::CagraCompression, 0x2000));
}

#[test]
fn index_params_with_compression() {
    let compression = CompressionParams::new(
        CompressionParamsBuilder { pq_bits: Some(4), pq_dim: Some(8), ..CompressionParams::builder() },
        Ok(compression_record()),
    )
    .unwrap();
    let options = IndexParamsBuilder { compression: Some(compression), ..IndexParams::builder() };
    let params = IndexParams::new(options, Ok(index_record()), None).unwrap();

    assert_ne!(params.record.compression, 0);
    let owned = params.compression.as_ref().unwrap();
    assert_eq!(params.record.compression, owned.handle());
    assert_eq!(owned.record.pq_bits, 4);
    assert_eq!(owned.record.pq_dim, 8);
    assert_eq!(owned.record.kmeans_n_iters, 25);
}

#[test]
fn index_params_accepts_l2_metric_with_compression() {
    let compression = CompressionParams::try_new(Ok(compression_record())).unwrap();
    let options = IndexParamsBuilder {
        metric: Some(DistanceType::L2Expanded),
        compression: Some(compression),
        ..IndexParams::builder()
    };
    IndexParams::new(options, Ok(index_record()), None).unwrap();
}

#[test]
fn index_params_with_ace_params() {
    let setup = AceParams::new(
        AceParamsBuilder { npartitions: Some(4), ..AceParams::builder() },
        Ok(ace_record()),
    )
    .ok()
    .unwrap();
    assert!(setup.set_build_dir.is_none());
    let params = IndexParams::new(IndexParams::builder().ace_with(setup.params), Ok(index_record()), None).unwrap();

    assert_eq!(params.record.build_algo, cuvsCagraGraphBuildAlgo::ACE);
    assert_ne!(params.record.graph_build_params, 0);
    match params.graph_build_owner.as_ref().unwrap() {
        GraphBuildOwner::Ace(ace) => {
            assert_eq!(params.record.graph_build_params, ace.handle());
            assert_eq!(ace.record.npartitions, 4);
        }
        GraphBuildOwner::IvfPq(_) => panic!("the owner holds other parameters"),
    }
}

#[test]
fn index_params_ace_implied_by_ace_with() {
    let params = IndexParams::new(IndexParams::builder().ace_with(ace()), Ok(index_record()), None).unwrap();
    assert_eq!(params.record.build_algo, cuvsCagraGraphBuildAlgo::ACE);
}

#[test]
fn index_params_with_default_ace() {
    let options = IndexParams::builder().ace();
    assert!(options.needs_default_ace());
    let params = IndexParams::new(options, Ok(index_record()), Some(Ok(ace_record()))).unwrap();

    assert_eq!(params.record.build_algo, cuvsCagraGraphBuildAlgo::ACE);
    assert_ne!(params.record.graph_build_params, 0);
    assert_eq!(params.record.graph_build_params, 0x3000);
}

#[test]
fn index_params_reports_failed_default_ace() {
    let options = IndexParams::builder().ace();
    let refused = IndexParams::new(options, Ok(index_record()), Some(Err(failure("no memory")))).unwrap_err();
    assert_eq!(refused.error.to_string(), "no memory");
    assert_eq!(refused.calls.len(), 2);
    assert!(restores(&refused.calls[0]));
    assert!(destroys(&refused.calls[1], ParamsKind::CagraIndex, 0x1000));
}

#[test]
fn index_params_with_ivf_pq_params() {
    let graph = IvfPqGraphBuildParams::new(
        IvfPqGraphBuildParamsBuilder {
            n_lists: Some(100),
            refinement_rate: Some(b32(3.0)),
            ..IvfPqGraphBuildParams::builder()
        },
        ivf_pq_graph(),
    );
    let params = IndexParams::new(IndexParams::builder().ivf_pq_with(graph), Ok(index_record()), None).unwrap();

    assert_eq!(params.record.build_algo, cuvsCagraGraphBuildAlgo::IVF_PQ);
    assert_ne!(params.record.graph_build_params, 0);
    assert_eq!(params.record.graph_build_params, 0x7000);
    assert!(params.graph_build_owner.is_some());
}

#[test]
fn ivf_pq_graph_build_params_keep_their_place() {
    let graph = IvfPqGraphBuildParams::new(
        IvfPqGraphBuildParamsBuilder { refinement_rate: Some(b32(3.0)), ..IvfPqGraphBuildParams::builder() },
        ivf_pq_graph(),
    );
    let address = graph.as_mut_ptr();
    let build = graph.inner.ivf_pq_build_params;
    let search = graph.inner.ivf_pq_search_params;
    assert_eq!(address, 0x7000);

    let params = IndexParams::new(IndexParams::builder().ivf_pq_with(graph), Ok(index_record()), None).unwrap();
    let moved = Box::new(params);
    let owner = moved.graph_build_owner.as_ref().unwrap();
    assert_eq!(owner.as_mut_ptr(), address);
    assert_eq!(moved.record.graph_build_params, address);
    match owner {
        GraphBuildOwner::IvfPq(held) => {
            assert_eq!(held.as_mut_ptr(), address);
            assert_eq!(held.inner.ivf_pq_build_params, build);
            assert_eq!(held.inner.ivf_pq_search_params, search);
            assert_eq!(held.inner.refinement_rate.bits, b32(3.0).bits);
        }
        GraphBuildOwner::Ace(_) => panic!("IVF-PQ parameters became ACE parameters"),
    }
}

#[test]
fn index_params_with_default_ivf_pq() {
    let params = IndexParams::new(IndexParams::builder().ivf_pq(), Ok(index_record()), None).unwrap();

    assert_eq!(params.record.build_algo, cuvsCagraGraphBuildAlgo::IVF_PQ);
    assert_ne!(params.record.graph_build_params, 0);
    assert_eq!(params.record.graph_build_params, 0x1800);
    assert!(params.graph_build_owner.is_none());
}

#[test]
fn index_params_with_auto_and_iterative_search() {
    let auto = IndexParams::new(IndexParams::builder().auto(), Ok(index_record()), None).unwrap();
    assert_eq!(auto.record.build_algo, cuvsCagraGraphBuildAlgo::AUTO_SELECT);
    assert_eq!(auto.record.graph_build_params, 0);

    let options = IndexParams::builder().iterative_cagra_search();
    let iterative = IndexParams::new(options, Ok(index_record()), None).unwrap();
    assert_eq!(iterative.record.build_algo, cuvsCagraGraphBuildAlgo::ITERATIVE_CAGRA_SEARCH);
    assert_eq!(iterative.record.graph_build_params, 0);
}

#[test]
fn index_params_without_settings_are_the_defaults() {
    let params = IndexParams::new(IndexParams::builder(), Ok(index_record()), None).unwrap();
    assert_eq!(params.handle(), 0x1000);
    assert_eq!(params.record.metric, cuvsDistanceType::L2Expanded);
    assert_eq!(params.record.intermediate_graph_degree, 128);
    assert_eq!(params.record.graph_degree, 64);
    assert_eq!(params.record.build_algo, cuvsCagraGraphBuildAlgo::IVF_PQ);
    assert_eq!(params.record.nn_descent_niter, 20);
    assert_eq!(params.record.compression, 0);
    assert_eq!(params.record.graph_build_params, 0x1800);
}

#[test]
fn index_params_report_a_failed_creation() {
    let err = IndexParams::new(IndexParams::builder(), Err(failure("out of memory")), None).unwrap_err().error;
    assert!(matches!(err, CagraError::Library(_)));
    assert_eq!(err.to_string(), "out of memory");
}

#[test]
fn index_params_check_degree_before_metric() {
    let compression = CompressionParams::try_new(Ok(compression_record())).unwrap();
    let options = IndexParamsBuilder {
        metric: Some(DistanceType::L1),
        graph_degree: Some(0),
        compression: Some(compression),
        ..IndexParams::builder()
    };
    let err = IndexParams::validate(&options).unwrap_err();
    assert_eq!(err.to_string(), "invalid parameter: graph_degree must be > 0");
}

#[test]
fn index_params_give_back_what_they_hold() {
    let compression = CompressionParams::try_new(Ok(compression_record())).unwrap();
    let options = IndexParamsBuilder { compression: Some(compression), ..IndexParams::builder() };
    let params = IndexParams::new(options.ivf_pq_with(ivf_pq_graph()), Ok(index_record()), None).unwrap();
    let calls = params.teardown();

    assert_eq!(calls.len(), 5);
    assert!(restores(&calls[0]));
    assert!(destroys(&calls[1], ParamsKind::CagraIndex, 0x1000));
    assert!(destroys(&calls[2], ParamsKind::IvfPqIndex, 0x5000));
    assert!(destroys(&calls[3], ParamsKind::IvfPqSearch, 0x6000));
    assert!(destroys(&calls[4], ParamsKind::CagraCompression, 0x2000));
}

#[test]
fn index_params_restore_the_default_pointer_after_ace() {
    let params = IndexParams::new(IndexParams::builder().ace_with(ace()), Ok(index_record()), None).unwrap();
    let calls = params.teardown();
    assert_eq!(calls.len(), 3);
    assert!(restores(&calls[0]));
    assert!(destroys(&calls[1], ParamsKind::CagraIndex, 0x1000));
    assert!(destroys(&calls[2], ParamsKind::Ace, 0x3000));
}

#[test]
fn a_replaced_strategy_is_given_back() {
    let mut params = IndexParams::new(IndexParams::builder().ace_with(ace()), Ok(index_record()), None).unwrap();

    let calls = params.apply_graph_build(None, None).ok().unwrap();
    assert!(calls.is_empty());
    let err = params
        .apply_graph_build(Some(RequestedGraphBuild::AceDefault), Some(Err(failure("no memory"))))
        .err()
        .unwrap();
    assert_eq!(err.to_string(), "no memory");
    assert_eq!(params.record.graph_build_params, 0x3000);

    let calls = params.apply_graph_build(Some(RequestedGraphBuild::IvfPq(ivf_pq_graph())), None).ok().unwrap();
    assert_eq!(calls.len(), 1);
    assert!(destroys(&calls[0], ParamsKind::Ace, 0x3000));
    assert_eq!(params.record.graph_build_params, 0x7000);

    let calls = params.apply_graph_build(Some(RequestedGraphBuild::Auto), None).ok().unwrap();
    assert_eq!(calls.len(), 2);
    assert!(destroys(&calls[0], ParamsKind::IvfPqIndex, 0x5000));
    assert!(destroys(&calls[1], ParamsKind::IvfPqSearch, 0x6000));
    assert_eq!(params.record.graph_build_params, 0);
    assert!(params.graph_build_owner.is_none());
}

#[test]
fn settings_give_back_what_they_hold() {
    let compression = CompressionParams::try_new(Ok(compression_record())).unwrap();
    let options = IndexParamsBuilder { compression: Some(compression), ..IndexParams::builder() };
    let calls = options.ace_with(ace()).teardown();
    assert_eq!(calls.len(), 2);
    assert!(destroys(&calls[0], ParamsKind::Ace, 0x3000));
    assert!(destroys(&calls[1], ParamsKind::CagraCompression, 0x2000));
}

fn hnsw(
    n_rows: i64,
    dim: i64,
    m: i32,
    ef_construction: i32,
) -> Result<(IndexParams, Call<'static>), Refused<CagraError>> {
    IndexParams::from_hnsw_params(
        n_rows,
        dim,
        m,
        ef_construction,
        HnswHeuristicType::SimilarSearchPerformance,
        DistanceType::L2Expanded,
        Ok(index_record()),
    )
}

#[test]
fn index_params_from_hnsw_params() {
    let (params, call) = hnsw(10000, 128, 16, 200).ok().unwrap();
    match call {
        Call::CagraIndexParamsFromHnswParams { params: p, n_rows, dim, m, ef_construction, heuristic, metric } => {
            assert_eq!(p, 0x1000);
            assert_eq!((n_rows, dim, m, ef_construction), (10000, 128, 16, 200));
            assert_eq!(
                heuristic,
                cuvsCagraHnswHeuristicType::CUVS_CAGRA_HEURISTIC_SIMILAR_SEARCH_PERFORMANCE
            );
            assert_eq!(metric, cuvsDistanceType::L2Expanded);
        }
        _ => panic!("another call"),
    }
    let mut derived = index_record().record;
    derived.graph_degree = 32;
    derived.graph_build_params = 0x1900;
    let params = params.hnsw_params_derived(Ok(derived)).unwrap();

    assert!(params.record.graph_degree > 0);
    assert_eq!(params.record.graph_degree, 32);
    assert!(params.graph_build_owner.is_none());
    assert!(restores(&params.teardown()[0]));
}

#[test]
fn index_params_from_hnsw_params_reports_the_failed_call() {
    let (params, _) = hnsw(10000, 128, 16, 200).ok().unwrap();
    let err = params.hnsw_params_derived(Err(failure("bad shape"))).unwrap_err().error;
    assert_eq!(err.to_string(), "bad shape");
}

#[test]
fn index_params_from_hnsw_params_rejects_non_positive_n_rows() {
    let err = hnsw(0, 128, 16, 200).err().unwrap().error;
    assert!(err.to_string().contains("n_rows must be > 0"));
}

#[test]
fn index_params_from_hnsw_params_rejects_non_positive_dim() {
    let err = hnsw(10000, 0, 16, 200).err().unwrap().error;
    assert!(err.to_string().contains("dim must be > 0"));
}

#[test]
fn index_params_from_hnsw_params_rejects_non_positive_m() {
    let err = hnsw(10000, 128, 0, 200).err().unwrap().error;
    assert!(err.to_string().contains("m must be > 0"));
}

#[test]
fn index_params_from_hnsw_params_rejects_non_positive_ef_construction() {
    let err = hnsw(10000, 128, 16, 0).err().unwrap().error;
    assert!(err.to_string().contains("ef_construction must be > 0"));
}

#[test]
fn ace_params_all_defaults() {
    let params = AceParams::try_new(Ok(ace_record())).unwrap();
    assert!(params.record.ef_construction > 0);
    assert_ne!(params.record.build_dir, 0);
    assert!(!params.record.use_disk);
}

#[test]
fn ace_params_with_values() {
    let setup = AceParams::new(
        AceParamsBuilder {
            npartitions: Some(8),
            ef_construction: Some(128),
            use_disk: Some(true),
            max_host_memory_gb: Some(b64(16.0)),
            max_gpu_memory_gb: Some(b64(8.0)),
            ..AceParams::builder()
        },
        Ok(ace_record()),
    )
    .ok()
    .unwrap();
    let record = setup.params.record;

    assert_eq!(record.npartitions, 8);
    assert_eq!(record.ef_construction, 128);
    assert!(record.use_disk);
    assert_eq!(f64::from_bits(record.max_host_memory_gb.to_bits()), 16.0);
    assert_eq!(f64::from_bits(record.max_gpu_memory_gb.to_bits()), 8.0);
}

#[test]
fn ace_params_with_build_dir() {
    let setup = AceParams::new(
        AceParamsBuilder { build_dir: Some(b"/tmp/ace".to_vec()), ..AceParams::builder() },
        Ok(ace_record()),
    )
    .ok()
    .unwrap();
    match setup.set_build_dir {
        Some(Call::AceParamsSetBuildDir { params, path }) => {
            assert_eq!(params, 0x3000);
            assert_eq!(path.as_bytes_with_nul(), b"/tmp/ace\0");
        }
        _ => panic!("no directory is set"),
    }
    assert_eq!(setup.params.build_dir_set(Ok(())).unwrap().handle(), 0x3000);
}

#[test]
fn ace_params_reject_a_directory_with_a_zero_byte() {
    let err = AceParams::new(
        AceParamsBuilder { build_dir: Some(b"/tmp\0ace".to_vec()), ..AceParams::builder() },
        Ok(ace_record()),
    )
    .err()
    .unwrap()
    .error;
    assert_eq!(err.to_string(), "path contains interior NUL byte");
    match err {
        CagraError::InvalidPath(e) => assert_eq!(e.nul_position(), 4),
        _ => panic!("another error"),
    }
}

#[test]
fn ace_params_report_a_failed_directory_call() {
    let err = ace().build_dir_set(Err(failure("read-only"))).unwrap_err().error;
    assert_eq!(err.to_string(), "read-only");
}

#[test]
fn ivf_pq_graph_build_params_defaults() {
    let params = ivf_pq_graph();
    assert_eq!(f32::from_bits(params.inner.refinement_rate.to_bits()), 2.0);
}

#[test]
fn ivf_pq_graph_build_params_with_values() {
    let params = IvfPqGraphBuildParams::new(
        IvfPqGraphBuildParamsBuilder {
            n_lists: Some(200),
            pq_bits: Some(4),
            pq_dim: Some(16),
            n_probes: Some(20),
            refinement_rate: Some(b32(3.0)),
            ..IvfPqGraphBuildParams::builder()
        },
        ivf_pq_graph(),
    );

    assert_eq!(f32::from_bits(params.inner.refinement_rate.to_bits()), 3.0);
    assert_eq!(params.build.n_lists, 200);
    assert_eq!(params.build.pq_bits, 4);
    assert_eq!(params.build.pq_dim, 16);
    assert_eq!(params.search.unwrap().n_probes, 20);
    assert_eq!(params.build.kmeans_n_iters, 20);
    assert_eq!(params.as_mut_ptr(), 0x7000);
}

#[test]
fn ivf_pq_graph_build_params_give_back_a_half_made_pair() {
    let half = IvfPqGraphBuildParams::try_new(0x7000, Ok(ivf_pq_build_record())).unwrap();
    let refused = half.with_search(Err(failure("no memory"))).unwrap_err();
    assert_eq!(refused.error.to_string(), "no memory");
    let calls = refused.calls;
    assert_eq!(calls.len(), 1);
    assert!(destroys(&calls[0], ParamsKind::IvfPqIndex, 0x5000));

    let calls = ivf_pq_graph().teardown();
    assert_eq!(calls.len(), 2);
    assert!(destroys(&calls[0], ParamsKind::IvfPqIndex, 0x5000));
    assert!(destroys(&calls[1], ParamsKind::IvfPqSearch, 0x6000));
}

#[test]
fn ivf_pq_graph_build_params_report_a_failed_creation() {
    let err = IvfPqGraphBuildParams::try_new(0x7000, Err(failure("no memory"))).unwrap_err();
    assert_eq!(err.to_string(), "no memory");
}

#[test]
fn compression_params_rejects_pq_bits_below_cpp_range() {
    let err = CompressionParams::new(
        CompressionParamsBuilder { pq_bits: Some(3), ..CompressionParams::builder() },
        Ok(compression_record()),
    )
    .unwrap_err().error;
    assert!(err.to_string().contains("pq_bits"));
    assert_eq!(err.to_string(), "invalid parameter: pq_bits must be within [4, 16], got 3");
}

#[test]
fn compression_params_accepts_pq_bits_at_cpp_upper_bound() {
    let params = CompressionParams::new(
        CompressionParamsBuilder { pq_bits: Some(16), ..CompressionParams::builder() },
        Ok(compression_record()),
    )
    .unwrap();
    assert_eq!(params.record.pq_bits, 16);
}

#[test]
fn compression_params_rejects_pq_bits_above_cpp_range() {
    let options = CompressionParamsBuilder { pq_bits: Some(17), ..CompressionParams::builder() };
    let err = CompressionParams::validate(&options).unwrap_err();
    assert_eq!(err.to_string(), "invalid parameter: pq_bits must be within [4, 16], got 17");
}

#[test]
fn compression_params_try_new_uses_library_defaults() {
    let params = CompressionParams::try_new(Ok(compression_record())).unwrap();
    assert!(params.record.pq_bits > 0);
    assert!(destroys(&params.teardown(), ParamsKind::CagraCompression, 0x2000));
}

#[test]
fn search_params_all_defaults() {
    let params = SearchParams::try_new(Ok(search_record())).unwrap();
    assert_eq!(params.record.itopk_size, 64);
    assert_eq!(params.record.algo, cuvsCagraSearchAlgo::SINGLE_CTA);
    assert_eq!(params.record.hashmap_mode, cuvsCagraHashMode::HASH);
}

#[test]
fn search_params_accepts_non_power_of_two_itopk() {
    let params = search(SearchParamsBuilder { itopk_size: Some(100), ..SearchParams::builder() }).unwrap();
    assert_eq!(params.record.itopk_size, 100);
}

#[test]
fn search_params_accepts_zero_itopk() {
    search(SearchParamsBuilder { itopk_size: Some(0), ..SearchParams::builder() }).unwrap();
}

#[test]
fn extend_params_try_new_uses_library_defaults() {
    let created = || Ok(Created { handle: 0x8000, record: cuvsCagraExtendParams { max_chunk_size: 0 } });
    let params = ExtendParams::try_new(created()).unwrap();
    let builder_defaults = ExtendParams::new(ExtendParams::builder(), created()).unwrap();
    assert_eq!(params.record.max_chunk_size, builder_defaults.record.max_chunk_size);
}

#[test]
fn extend_params_builder() {
    let created = Ok(Created { handle: 0x8000, record: cuvsCagraExtendParams { max_chunk_size: 0 } });
    let params = ExtendParams::new(ExtendParamsBuilder { max_chunk_size: Some(1024) }, created).unwrap();
    assert_eq!(params.record.max_chunk_size, 1024);
    assert_eq!(params.handle(), 0x8000);
    assert!(destroys(&params.teardown(), ParamsKind::CagraExtend, 0x8000));
}

#[test]
fn search_params_rejects_invalid_team_size_not_in_compiled_descriptor_table() {
    let err = search(SearchParamsBuilder { team_size: Some(4), ..SearchParams::builder() }).unwrap_err().error;
    assert!(err.to_string().contains("team_size must be"));
    assert_eq!(err.to_string(), "invalid parameter: team_size must be 0 (auto), 8, 16, or 32, got 4");
}

#[test]
fn search_params_accepts_compiled_team_sizes() {
    for team_size in [8, 16, 32] {
        let options = SearchParamsBuilder { team_size: Some(team_size), ..SearchParams::builder() };
        let params = search(options).unwrap();
        assert_eq!(params.record.team_size, team_size);
    }
}

#[test]
fn search_params_rejects_fill_rate_out_of_range() {
    let options = SearchParamsBuilder { hashmap_max_fill_rate: Some(shown(0.95)), ..SearchParams::builder() };
    let err = search(options).unwrap_err().error;
    assert!(err.to_string().contains("hashmap_max_fill_rate"));
    assert_eq!(err.to_string(), "invalid parameter: hashmap_max_fill_rate must be in [0.1, 0.9), got 0.95");
}

#[test]
fn search_params_accepts_fill_rate_at_cpp_lower_bound() {
    let options = SearchParamsBuilder { hashmap_max_fill_rate: Some(shown(0.1)), ..SearchParams::builder() };
    let params = search(options).unwrap();
    assert_eq!(f32::from_bits(params.record.hashmap_max_fill_rate.to_bits()), 0.1);
}

#[test]
fn search_params_rejects_fill_rates_at_the_upper_bound_and_beyond() {
    for rate in [0.9f32, 1.0, 0.0, -0.5, 0.09, f32::NAN, f32::INFINITY] {
        let options = SearchParamsBuilder { hashmap_max_fill_rate: Some(shown(rate)), ..SearchParams::builder() };
        let refused = search(options).unwrap_err();
        assert!(matches!(refused.error, CagraError::Validation(_)));
        assert_eq!(refused.calls.len(), 1);
        assert!(destroys(&refused.calls[0], ParamsKind::CagraSearch, 0x4000));
    }
}

#[test]
fn search_params_rejects_invalid_thread_block_size() {
    let err = search(SearchParamsBuilder { thread_block_size: Some(33), ..SearchParams::builder() }).unwrap_err().error;
    assert!(err.to_string().contains("thread_block_size"));
    assert_eq!(
        err.to_string(),
        "invalid parameter: thread_block_size must be 0, 64, 128, 256, 512, or 1024, got 33"
    );
}

#[test]
fn search_params_accepts_supported_thread_block_sizes() {
    for thread_block_size in [64, 128, 256, 512, 1024] {
        let options = SearchParamsBuilder { thread_block_size: Some(thread_block_size), ..SearchParams::builder() };
        let params = search(options).unwrap();
        assert_eq!(params.record.thread_block_size, thread_block_size);
    }
}

#[test]
fn search_params_rejects_hashmap_min_bitlen_above_cpp_limit() {
    let err = search(SearchParamsBuilder { hashmap_min_bitlen: Some(21), ..SearchParams::builder() }).unwrap_err().error;
    assert!(err.to_string().contains("hashmap_min_bitlen"));
    assert_eq!(err.to_string(), "invalid parameter: hashmap_min_bitlen must be <= 20, got 21");
}

#[test]
fn search_params_accepts_hashmap_min_bitlen_at_cpp_upper_limit() {
    let params = search(SearchParamsBuilder { hashmap_min_bitlen: Some(20), ..SearchParams::builder() }).unwrap();
    assert_eq!(params.record.hashmap_min_bitlen, 20);
}

#[test]
fn search_params_rejects_small_hash_with_multi_cta() {
    let err = search(SearchParamsBuilder {
        algo: Some(SearchAlgo::MultiCta),
        hashmap_mode: Some(HashMode::Small),
        ..SearchParams::builder()
    })
    .unwrap_err().error;
    assert!(err.to_string().contains("small_hash"));
    assert_eq!(
        err.to_string(),
        "invalid parameter: `small_hash` is not available when 'search_mode' is \"multi-cta\""
    );
}

#[test]
fn search_params_rejects_small_hash_with_multi_cta_by_default() {
    let mut created = search_record();
    created.record.algo = cuvsCagraSearchAlgo::MULTI_CTA;
    let options = SearchParamsBuilder { hashmap_mode: Some(HashMode::Small), ..SearchParams::builder() };
    let err = SearchParams::new(options, Ok(created)).unwrap_err().error;
    assert!(err.to_string().contains("small_hash"));
}

#[test]
fn search_params_accepts_small_hash_with_single_cta() {
    let params = search(SearchParamsBuilder {
        algo: Some(SearchAlgo::SingleCta),
        hashmap_mode: Some(HashMode::Small),
        ..SearchParams::builder()
    })
    .unwrap();
    assert_eq!(params.record.hashmap_mode, cuvsCagraHashMode::SMALL);
}

#[test]
fn search_params_rejects_single_cta_itopk_above_cpp_limit() {
    let err = search(SearchParamsBuilder {
        algo: Some(SearchAlgo::SingleCta),
        itopk_size: Some(513),
        ..SearchParams::builder()
    })
    .unwrap_err().error;
    assert!(err.to_string().contains("512"));
    assert_eq!(
        err.to_string(),
        "invalid parameter: itopk_size cannot be larger than 512 for SingleCta, got 513"
    );
}

#[test]
fn search_params_accepts_multi_cta_itopk_at_cpp_upper_limit() {
    let params = search(SearchParamsBuilder {
        algo: Some(SearchAlgo::MultiCta),
        itopk_size: Some(1024),
        ..SearchParams::builder()
    })
    .unwrap();
    assert_eq!(params.record.algo, cuvsCagraSearchAlgo::MULTI_CTA);
    assert_eq!(params.record.itopk_size, 1024);
}

#[test]
fn search_params_report_a_failed_creation_first() {
    let options = SearchParamsBuilder { team_size: Some(4), ..SearchParams::builder() };
    let err = SearchParams::new(options, Err(failure("no device"))).unwrap_err().error;
    assert_eq!(err.to_string(), "no device");
}

#[test]
fn search_params_put_every_setting_into_its_field() {
    let params = search(SearchParamsBuilder {
        max_queries: Some(11),
        itopk_size: Some(12),
        max_iterations: Some(13),
        algo: Some(SearchAlgo::MultiKernel),
        team_size: Some(16),
        search_width: Some(15),
        min_iterations: Some(17),
        thread_block_size: Some(128),
        hashmap_mode: Some(HashMode::Auto),
        hashmap_min_bitlen: Some(19),
        hashmap_max_fill_rate: Some(shown(0.25)),
        num_random_samplings: Some(21),
        rand_xor_mask: Some(22),
        persistent: Some(true),
        persistent_lifetime: Some(b32(23.0)),
        persistent_device_usage: Some(b32(0.75)),
    })
    .unwrap();
    let record = params.record;
    assert_eq!((record.max_queries, record.itopk_size, record.max_iterations), (11, 12, 13));
    assert_eq!(record.algo, cuvsCagraSearchAlgo::MULTI_KERNEL);
    assert_eq!((record.team_size, record.search_width, record.min_iterations), (16, 15, 17));
    assert_eq!(record.thread_block_size, 128);
    assert_eq!(record.hashmap_mode, cuvsCagraHashMode::AUTO_HASH);
    assert_eq!(record.hashmap_min_bitlen, 19);
    assert_eq!(record.hashmap_max_fill_rate.to_bits(), 0.25f32.to_bits());
    assert_eq!((record.num_random_samplings, record.rand_xor_mask), (21, 22));
    assert!(record.persistent);
    assert_eq!(record.persistent_lifetime.to_bits(), 23.0f32.to_bits());
    assert_eq!(record.persistent_device_usage.to_bits(), 0.75f32.to_bits());
    assert!(destroys(&params.teardown(), ParamsKind::CagraSearch, 0x4000));
}

#[test]
fn cagra_choices_round_trip() {
    for algo in [
        GraphBuildAlgo::Auto,
        GraphBuildAlgo::IvfPq,
        GraphBuildAlgo::NnDescent,
        GraphBuildAlgo::IterativeCagraSearch,
        GraphBuildAlgo::Ace,
    ] {
        assert_eq!(GraphBuildAlgo::from(cuvsCagraGraphBuildAlgo::from(algo)), algo);
    }
    for algo in [SearchAlgo::SingleCta, SearchAlgo::MultiCta, SearchAlgo::MultiKernel, SearchAlgo::Auto] {
        assert_eq!(SearchAlgo::from(cuvsCagraSearchAlgo::from(algo)), algo);
    }
    for mode in [HashMode::Hash, HashMode::Small, HashMode::Auto] {
        assert_eq!(HashMode::from(cuvsCagraHashMode::from(mode)), mode);
    }
    for rule in [HnswHeuristicType::SimilarSearchPerformance, HnswHeuristicType::SameGraphFootprint] {
        assert_eq!(HnswHeuristicType::from(cuvsCagraHnswHeuristicType::from(rule)), rule);
    }
}

use cuvs::binary::Binary32;
use cuvs::call::{Call, Figure, IndexKind, Inside, Work};
use cuvs::construction::Construction;
use cuvs::distance::{pairwise_distance, DistanceError, DistanceType};
use cuvs::dlpack::{DLPackError, DLTensorView, DLTensorViewMut, IntoDlTensor, ViewError};
use cuvs::error::LibraryError;
use cuvs::ffi::{
    cuvsCagraExtendParams, cuvsCagraGraphBuildAlgo, cuvsCagraHashMode, cuvsCagraIndexParams, cuvsCagraSearchAlgo,
    cuvsCagraSearchParams, cuvsDistanceType, cuvsFilterType, Created,
};
use cuvs::logging::{get_log_level, set_log_level, LogLevel};
use cuvs::neighbors::brute_force::{self, BruteForceError};
use cuvs::neighbors::cagra::{self, CagraError, ExtendParams, IndexParams, SearchParams};
use cuvs::neighbors::filters::{Bitmap, Bitset, Filter, SearchFilter};
use cuvs::resources::{Resources, ResourcesError};
use cuvs::torch::{tensor_view, tensor_view_mut, Device, Kind, TorchTensor};
use cuvs::version::version;

fn b32(x: f32) -> Binary32 {
    Binary32::from_bits(x.to_bits())
}

fn resources() -> Resources {
    Resources::new(Ok(0x77)).unwrap()
}

fn cuda(kind: Kind, size: &[i64]) -> TorchTensor {
    TorchTensor {
        data_ptr: 0x400,
        device: Device::Cuda(0),
        kind,
        size: size.to_vec(),
        stride: vec![],
        is_contiguous: true,
    }
}

fn view(kind: Kind, size: &[i64]) -> DLTensorView<'static> {
    tensor_view(&cuda(kind, size)).ok().unwrap()
}

fn view_mut(kind: Kind, size: &[i64]) -> DLTensorViewMut<'static> {
    tensor_view_mut(&cuda(kind, size)).ok().unwrap()
}

fn index_params() -> IndexParams {
    IndexParams::try_new(Ok(Created {
        handle: 0x10,
        record: cuvsCagraIndexParams {
            metric: cuvsDistanceType::L2Expanded,
            intermediate_graph_degree: 128,
            graph_degree: 64,
            build_algo: cuvsCagraGraphBuildAlgo::IVF_PQ,
            nn_descent_niter: 20,
            compression: 0,
            graph_build_params: 0x18,
        },
    }))
    .unwrap()
}

fn search_params() -> SearchParams {
    SearchParams::try_new(Ok(Created {
        handle: 0x20,
        record: cuvsCagraSearchParams {
            max_queries: 0,
            itopk_size: 64,
            max_iterations: 0,
            algo: cuvsCagraSearchAlgo::SINGLE_CTA,
            team_size: 0,
            search_width: 1,
            min_iterations: 0,
            thread_block_size: 0,
            hashmap_mode: cuvsCagraHashMode::HASH,
            hashmap_min_bitlen: 0,
            hashmap_max_fill_rate: b32(0.5),
            num_random_samplings: 1,
            rand_xor_mask: 0,
            persistent: false,
            persistent_lifetime: b32(2.0),
            persistent_device_usage: b32(1.0),
        },
    }))
    .unwrap()
}

fn cagra_index(handle: usize) -> cagra::Index<'static> {
    cagra::Index::finish(Construction::Done { outcome: Ok(handle) }).unwrap()
}

fn bits() -> DLTensorView<'static> {
    view(Kind::Int, &[1])
}

fn bitmap() -> SearchFilter<'static> {
    SearchFilter::Bitmap(Filter::<Bitmap>::new(bits()).ok().unwrap())
}

fn bitset() -> SearchFilter<'static> {
    SearchFilter::Bitset(Filter::<Bitset>::new(bits()).ok().unwrap())
}

/// A tensor that no adapter can describe.
struct Refused;

impl<'a> IntoDlTensor<'a> for Refused {
    fn into_dl_tensor(self) -> Result<DLTensorView<'a>, DLPackError> {
        Err(DLPackError::UnsupportedDType("QInt8".to_string()))
    }
}

#[test]
fn index_search_with_bitmap_filter_returns_validation_error() {
    let filter = bitmap();
    let err = cagra_index(0x99)
        .search_filtered(
            &resources(),
            &search_params(),
            view(Kind::Float, &[4, 32]),
            view_mut(Kind::Int64, &[4, 10]),
            view_mut(Kind::Float, &[4, 10]),
            &filter,
        )
        .err()
        .unwrap();
    assert!(matches!(err, CagraError::Validation(_)));
    assert_eq!(err.to_string(), "invalid parameter: bitmap filters are not supported for CAGRA");
}

#[test]
fn merge_with_bitmap_filter_returns_validation_error() {
    let (a, b) = (cagra_index(1), cagra_index(2));
    let filter = bitmap();
    let err = match cagra::Index::merge_filtered(&resources(), &index_params(), &[&a, &b], &filter) {
        Ok(_) => panic!("expected bitmap filter to be rejected for CAGRA merge"),
        Err(err) => err,
    };
    assert!(matches!(err, CagraError::Validation(_)));
}

#[test]
fn cagra_search_hands_over_its_arguments() {
    let filter = bitset();
    let index = cagra_index(0x99);
    let call = index
        .search_filtered(
            &resources(),
            &search_params(),
            view(Kind::Float, &[4, 32]),
            view_mut(Kind::Int64, &[4, 10]),
            view_mut(Kind::Float, &[4, 10]),
            &filter,
        )
        .ok()
        .unwrap();
    match call {
        Call::CagraSearch { res, params, index, queries, neighbors, distances, filter } => {
            assert_eq!((res, params, index), (0x77, 0x20, 0x99));
            assert_eq!(queries.shape(), &[4, 32]);
            assert_eq!(neighbors.dtype().bits, 64);
            assert_eq!(distances.dtype().bits, 32);
            assert_eq!(filter.type_, cuvsFilterType::BITSET);
        }
        _ => panic!("another call"),
    }
    let call = index
        .search(
            &resources(),
            &search_params(),
            view(Kind::Float, &[4, 32]),
            view_mut(Kind::Int64, &[4, 10]),
            view_mut(Kind::Float, &[4, 10]),
        )
        .ok()
        .unwrap();
    match call {
        Call::CagraSearch { filter, .. } => assert_eq!(filter.type_, cuvsFilterType::NO_FILTER),
        _ => panic!("another call"),
    }
}

#[test]
fn cagra_build_leaves_a_handle_that_could_not_be_filled() {
    let making = cagra::Index::build(&resources(), &index_params(), view(Kind::Float, &[256, 32])).ok().unwrap();
    assert!(matches!(
        &making,
        Construction::Create { work: Work::CagraBuild { res: 0x77, params: 0x10, .. } }
    ));
    let made = making.resume(Ok(0x55)).resume(Err(LibraryError("no memory".to_string())));
    assert!(matches!(&made, Construction::Done { .. }));
    let err = cagra::Index::finish(made).unwrap_err();
    assert!(matches!(err, CagraError::Library(_)));
    assert_eq!(err.to_string(), "no memory");
}

#[test]
fn construction_reports_a_failed_creation() {
    let making = cagra::Index::build(&resources(), &index_params(), view(Kind::Float, &[256, 32])).ok().unwrap();
    match making.resume(Err(LibraryError("no device".to_string()))) {
        Construction::Done { outcome } => assert_eq!(outcome.unwrap_err().to_string(), "no device"),
        _ => panic!("not finished"),
    }
}

#[test]
fn refused_tensors_stop_an_operation() {
    let err = cagra::Index::build(&resources(), &index_params(), Refused).err().unwrap();
    assert!(matches!(err, CagraError::DLPack(_)));
    assert_eq!(err.to_string(), "unsupported tensor dtype: QInt8");
    let err = cagra_index(1)
        .search(
            &resources(),
            &search_params(),
            Refused,
            view_mut(Kind::Int64, &[4, 10]),
            view_mut(Kind::Float, &[4, 10]),
        )
        .err()
        .unwrap();
    assert!(matches!(err, CagraError::DLPack(_)));
}

#[test]
fn cagra_from_args_and_extend() {
    let metric = DistanceType::CosineExpanded;
    let graph = view(Kind::Int, &[256, 64]);
    match cagra::Index::from_args(&resources(), metric, graph, view(Kind::Float, &[256, 32])) {
        Ok(Construction::Create { work: Work::CagraFromArgs { res, metric, graph, dataset } }) => {
            assert_eq!(res, 0x77);
            assert_eq!(metric, cuvsDistanceType::CosineExpanded);
            assert_eq!(graph.shape(), &[256, 64]);
            assert_eq!(dataset.shape(), &[256, 32]);
        }
        _ => panic!("another outcome"),
    }
    let params = ExtendParams::try_new(Ok(Created {
        handle: 0x30,
        record: cuvsCagraExtendParams { max_chunk_size: 0 },
    }))
    .unwrap();
    let mut index = cagra_index(0x99);
    match index.extend(&resources(), &params, view(Kind::Float, &[64, 32])) {
        Ok(Call::CagraExtend { res, params, additional_dataset, index }) => {
            assert_eq!((res, params, index), (0x77, 0x30, 0x99));
            assert_eq!(additional_dataset.shape(), &[64, 32]);
        }
        _ => panic!("another outcome"),
    }
}

#[test]
fn cagra_merge_lists_its_indices_in_order() {
    let (a, b, c) = (cagra_index(3), cagra_index(1), cagra_index(2));
    match cagra::Index::merge(&resources(), &index_params(), &[&a, &b, &c]).construction() {
        Construction::Create { work: Work::CagraMerge { res, params, indices, filter } } => {
            assert_eq!((*res, *params), (0x77, 0x10));
            assert_eq!(*indices, vec![3, 1, 2]);
            assert_eq!(filter.type_, cuvsFilterType::NO_FILTER);
        }
        _ => panic!("another step"),
    }
    let filter = bitset();
    let merging = cagra::Index::merge_filtered(&resources(), &index_params(), &[&a], &filter).ok().unwrap();
    match merging.construction() {
        Construction::Create { work: Work::CagraMerge { indices, filter, .. } } => {
            assert_eq!(*indices, vec![3]);
            assert_eq!(filter.type_, cuvsFilterType::BITSET);
        }
        _ => panic!("another step"),
    }
}

#[test]
fn cagra_merged_index_outlives_its_filter() {
    let a = cagra_index(3);
    let merged: cagra::Index<'static> = {
        let filter = bitset();
        let merging = cagra::Index::merge_filtered(&resources(), &index_params(), &[&a], &filter).ok().unwrap();
        let merging = merging.resume(Ok(0x61)).resume(Ok(0));
        assert!(matches!(merging.construction(), Construction::Done { outcome: Ok(0x61) }));
        merging.finish().unwrap()
    };
    assert_eq!(merged.handle, 0x61);

    let failed = cagra::Index::merge(&resources(), &index_params(), &[&a])
        .resume(Err(LibraryError("no device".to_string())))
        .finish();
    assert_eq!(failed.unwrap_err().to_string(), "no device");
}

#[test]
fn cagra_files_and_accessors() {
    let index = cagra_index(0x99);
    match index.serialize(&resources(), b"/tmp/i", false) {
        Ok(Call::CagraSerialize { res, path, index, include_dataset }) => {
            assert_eq!((res, index, include_dataset), (0x77, 0x99, false));
            assert_eq!(path.as_bytes_with_nul(), b"/tmp/i\0");
        }
        _ => panic!("another outcome"),
    }
    assert!(matches!(
        index.serialize_to_hnswlib(&resources(), b"/tmp/h"),
        Ok(Call::CagraSerializeToHnswlib { res: 0x77, index: 0x99, .. })
    ));
    assert!(matches!(index.serialize(&resources(), b"\0", true), Err(CagraError::InvalidPath(_))));
    assert!(matches!(index.serialize_to_hnswlib(&resources(), b"a\0"), Err(CagraError::InvalidPath(_))));
    assert!(matches!(
        cagra::Index::deserialize(&resources(), b"/tmp/i"),
        Ok(Construction::Create { work: Work::CagraDeserialize { res: 0x77, .. } })
    ));
    assert!(matches!(index.dims(), Call::FigureGet { index: 0x99, figure: Figure::CagraDims }));
    assert!(matches!(index.size(), Call::FigureGet { index: 0x99, figure: Figure::CagraSize }));
    assert!(matches!(index.graph_degree(), Call::FigureGet { index: 0x99, figure: Figure::CagraGraphDegree }));
    assert!(matches!(index.dataset(), Call::TensorGet { index: 0x99, tensor: Inside::CagraDataset }));
    assert!(matches!(index.graph(), Call::TensorGet { index: 0x99, tensor: Inside::CagraGraph }));
    assert!(matches!(index.teardown(), Call::IndexDestroy { kind: IndexKind::Cagra, index: 0x99 }));
}

#[test]
fn cagra_errors_come_out_of_views() {
    let err = CagraError::from(ViewError::DLPack(DLPackError::InvalidMetadata("negative ndim")));
    assert_eq!(err.to_string(), "invalid DLPack metadata: negative ndim");
    let err = CagraError::from(ViewError::Library(LibraryError("no graph".to_string())));
    assert_eq!(err.to_string(), "no graph");
}

#[test]
fn brute_force_build_carries_the_metric() {
    let metric = DistanceType::LpUnexpanded(b32(3.5));
    let making = brute_force::Index::build(&resources(), view(Kind::Float, &[10, 4]), metric).ok().unwrap();
    match &making {
        Construction::Create { work: Work::BruteForceBuild { res, dataset, metric, metric_arg } } => {
            assert_eq!(*res, 0x77);
            assert_eq!(dataset.shape(), &[10, 4]);
            assert_eq!(*metric, cuvsDistanceType::LpUnexpanded);
            assert_eq!(metric_arg.to_bits(), 3.5f32.to_bits());
        }
        _ => panic!("another step"),
    }
    let making = making.resume(Ok(0x42)).resume(Err(LibraryError("bad".to_string())));
    assert!(matches!(&making, Construction::Release { kind: IndexKind::BruteForce, index: 0x42, .. }));
    let made = making.resume(Err(LibraryError("ignored".to_string())));
    assert!(matches!(&made, Construction::Done { .. }));
    assert_eq!(brute_force::Index::finish(made).unwrap_err().to_string(), "bad");
}

#[test]
fn brute_force_search_takes_both_filters() {
    let index = brute_force::Index::finish(Construction::Done { outcome: Ok(0x42) }).unwrap();
    for (filter, kind) in [(bitset(), cuvsFilterType::BITSET), (bitmap(), cuvsFilterType::BITMAP)] {
        let call = index
            .search_filtered(
                &resources(),
                view(Kind::Float, &[2, 4]),
                view_mut(Kind::Int64, &[2, 3]),
                view_mut(Kind::Float, &[2, 3]),
                &filter,
            )
            .ok()
            .unwrap();
        match call {
            Call::BruteForceSearch { res, index, queries, filter, .. } => {
                assert_eq!((res, index), (0x77, 0x42));
                assert_eq!(queries.shape(), &[2, 4]);
                assert_eq!(filter.type_, kind);
            }
            _ => panic!("another call"),
        }
    }
    let call = index.search(
        &resources(),
        view(Kind::Float, &[2, 4]),
        view_mut(Kind::Int64, &[2, 3]),
        view_mut(Kind::Float, &[2, 3]),
    );
    match call {
        Ok(Call::BruteForceSearch { filter, .. }) => assert!(filter.words.is_none()),
        _ => panic!("another outcome"),
    }
    assert!(matches!(index.serialize(&resources(), b"a\0b"), Err(BruteForceError::InvalidPath(_))));
    assert!(matches!(
        brute_force::Index::deserialize(&resources(), b"f"),
        Ok(Construction::Create { work: Work::BruteForceDeserialize { res: 0x77, .. } })
    ));
    assert!(matches!(index.teardown(), Call::IndexDestroy { kind: IndexKind::BruteForce, index: 0x42 }));
}

#[test]
fn non_lp_metrics_use_default_metric_arg() {
    assert_eq!(DistanceType::L2Expanded.metric_arg().to_bits(), 2.0f32.to_bits());
    assert_eq!(DistanceType::LpUnexpanded(b32(3.5)).metric_arg().to_bits(), 3.5f32.to_bits());
    assert_eq!(
        DistanceType::from(cuvsDistanceType::LpUnexpanded),
        DistanceType::LpUnexpanded(b32(2.0))
    );
}

#[test]
fn metrics_round_trip_and_compare() {
    for metric in [
        DistanceType::L2Expanded,
        DistanceType::L2SqrtExpanded,
        DistanceType::CosineExpanded,
        DistanceType::L1,
        DistanceType::L2Unexpanded,
        DistanceType::L2SqrtUnexpanded,
        DistanceType::InnerProduct,
        DistanceType::Linf,
        DistanceType::Canberra,
        DistanceType::CorrelationExpanded,
        DistanceType::JaccardExpanded,
        DistanceType::HellingerExpanded,
        DistanceType::Haversine,
        DistanceType::BrayCurtis,
        DistanceType::JensenShannon,
        DistanceType::HammingUnexpanded,
        DistanceType::KLDivergence,
        DistanceType::RusselRaoExpanded,
        DistanceType::DiceExpanded,
        DistanceType::BitwiseHamming,
        DistanceType::Precomputed,
    ] {
        assert_eq!(DistanceType::from(cuvsDistanceType::from(metric)), metric);
        assert_ne!(metric, DistanceType::LpUnexpanded(b32(2.0)));
    }
    assert_eq!(DistanceType::LpUnexpanded(b32(f32::NAN)), DistanceType::LpUnexpanded(b32(f32::NAN)));
    assert_eq!(DistanceType::LpUnexpanded(b32(0.0)), DistanceType::LpUnexpanded(b32(-0.0)));
    assert_ne!(DistanceType::LpUnexpanded(b32(1.0)), DistanceType::LpUnexpanded(b32(2.0)));
}

#[test]
fn pairwise_distance_hands_over_its_arguments() {
    let metric = DistanceType::LpUnexpanded(b32(3.0));
    let (x, y) = (view(Kind::Float, &[10, 6]), view(Kind::Float, &[12, 6]));
    match pairwise_distance(&resources(), x, y, view_mut(Kind::Float, &[10, 12]), metric) {
        Ok(Call::PairwiseDistance { res, x, y, distances, metric, metric_arg }) => {
            assert_eq!(res, 0x77);
            assert_eq!(x.shape(), &[10, 6]);
            assert_eq!(y.shape(), &[12, 6]);
            assert_eq!(distances.shape(), &[10, 12]);
            assert_eq!(metric, cuvsDistanceType::LpUnexpanded);
            assert_eq!(metric_arg.to_bits(), 3.0f32.to_bits());
        }
        _ => panic!("another outcome"),
    }
    let x = view(Kind::Float, &[10, 6]);
    let err = pairwise_distance(&resources(), x, Refused, view_mut(Kind::Float, &[10, 12]), metric).err().unwrap();
    assert!(matches!(err, DistanceError::DLPack(_)));
    assert_eq!(err.to_string(), "unsupported tensor dtype: QInt8");
}

#[test]
fn create_and_drop() {
    let res = Resources::new(Ok(5)).expect("failed to create resources");
    assert_eq!(res.handle(), 5);
    let err = Resources::new(Err(LibraryError("no device".to_string()))).unwrap_err();
    assert!(matches!(err, ResourcesError::Library(_)));
    assert_eq!(err.to_string(), "no device");
}

#[test]
fn close_returns_ok() {
    let res = Resources::new(Ok(5)).expect("failed to create resources");
    assert!(matches!(res.close(), Call::ResourcesDestroy { res: 5 }));
}

#[test]
fn sync_stream_succeeds() {
    let res = Resources::new(Ok(5)).expect("failed to create resources");
    assert!(matches!(res.sync_stream(), Call::StreamSync { res: 5 }));
    assert!(matches!(res.stream(), Call::StreamGet { res: 5 }));
    assert!(matches!(res.set_stream(9), Call::StreamSet { res: 5, stream: 9 }));
    assert!(matches!(res.device_id(), Call::DeviceIdGet { res: 5 }));
}

#[test]
fn log_level_and_version_calls() {
    assert!(matches!(get_log_level(), Call::LogLevelGet));
    assert!(matches!(
        set_log_level(LogLevel::CUVS_LOG_LEVEL_WARN),
        Call::LogLevelSet { level: LogLevel::CUVS_LOG_LEVEL_WARN }
    ));
    assert!(matches!(version(), Call::VersionGet));
}

use cuvs::binary::{Binary32, Shown32};
use cuvs::call::{Call, Figure, IndexKind, ParamsKind, Work};
use cuvs::construction::Construction;
use cuvs::distance::DistanceType;
use cuvs::error::LibraryError;
use cuvs::ffi::{cuvsDistanceType, cuvsVamanaIndexParams, Created};
use cuvs::neighbors::vamana::params::IndexParamsBuilder;
use cuvs::neighbors::vamana::{Index, IndexParams, VamanaError};
use cuvs::resources::Resources;
use cuvs::torch::{tensor_view, Device, Kind, TorchTensor};

fn b32(x: f32) -> Binary32 {
    Binary32::from_bits(x.to_bits())
}

fn shown(x: f32) -> Shown32 {
    Shown32 { value: b32(x), text: x.to_string() }
}

fn record() -> Created<cuvsVamanaIndexParams> {
    Created {
        handle: 0x10,
        record: cuvsVamanaIndexParams {
            metric: cuvsDistanceType::L2Expanded,
            graph_degree: 32,
            visited_size: 64,
            vamana_iters: shown(1.0),
            alpha: b32(1.2),
            max_fraction: b32(0.06),
            batch_base: b32(2.0),
            queue_size: 127,
            reverse_batchsize: 1000000,
        },
    }
}

fn build(options: IndexParamsBuilder) -> Result<IndexParams, VamanaError> {
    IndexParams::new(options, Ok(record())).map_err(|refused| refused.error)
}

#[test]
fn rejects_non_l2_metric() {
    let err = build(IndexParamsBuilder { metric: Some(DistanceType::InnerProduct), ..IndexParams::builder() })
        .unwrap_err();
    assert!(matches!(err, VamanaError::Validation(_)));
    assert_eq!(err.to_string(), "invalid parameter: Vamana currently only supports L2Expanded metric");
}

#[test]
fn try_new_uses_library_defaults() {
    let params = IndexParams::try_new(Ok(record())).unwrap();
    assert_eq!(params.record.metric, cuvsDistanceType::L2Expanded);
    assert!([32, 64, 128, 256].contains(&params.record.graph_degree));
}

#[test]
fn rejects_unsupported_graph_degree() {
    let err = build(IndexParamsBuilder { graph_degree: Some(16), ..IndexParams::builder() }).unwrap_err();
    assert!(matches!(err, VamanaError::Validation(_)));
    assert_eq!(
        err.to_string(),
        "invalid parameter: graph_degree must be one of [32, 64, 128, 256], got 16"
    );
}

#[test]
fn rejects_visited_size_not_exceeding_graph_degree() {
    let options = IndexParamsBuilder { graph_degree: Some(32), visited_size: Some(32), ..IndexParams::builder() };
    let err = build(options).unwrap_err();
    assert!(matches!(err, VamanaError::Validation(_)));
    assert_eq!(err.to_string(), "invalid parameter: visited_size must be > graph_degree (32), got 32");
}

#[test]
fn rejects_graph_degree_above_the_default_visited_size() {
    let err = build(IndexParamsBuilder { graph_degree: Some(64), ..IndexParams::builder() }).unwrap_err();
    assert_eq!(err.to_string(), "invalid parameter: visited_size must be > graph_degree (64), got 64");
}

#[test]
fn rejects_vamana_iters_below_one() {
    let err = build(IndexParamsBuilder { vamana_iters: Some(shown(0.5)), ..IndexParams::builder() }).unwrap_err();
    assert!(matches!(err, VamanaError::Validation(_)));
    assert_eq!(err.to_string(), "invalid parameter: vamana_iters must be >= 1.0, got 0.5");
}

#[test]
fn rejects_non_finite_vamana_iters() {
    for iters in [f32::NAN, f32::INFINITY] {
        let options = IndexParamsBuilder { vamana_iters: Some(shown(iters)), ..IndexParams::builder() };
        let err = build(options).unwrap_err();
        assert!(matches!(err, VamanaError::Validation(_)));
        assert_eq!(err.to_string(), format!("invalid parameter: vamana_iters must be finite, got {iters}"));
    }
}

#[test]
fn index_params_reject_invalid_values() {
    let err = build(IndexParamsBuilder { metric: Some(DistanceType::InnerProduct), ..IndexParams::builder() })
        .unwrap_err();
    assert!(matches!(err, VamanaError::Validation(_)));

    let err = build(IndexParamsBuilder { graph_degree: Some(16), ..IndexParams::builder() }).unwrap_err();
    assert!(matches!(err, VamanaError::Validation(_)));

    let options = IndexParamsBuilder { graph_degree: Some(32), visited_size: Some(32), ..IndexParams::builder() };
    let err = build(options).unwrap_err();
    assert!(matches!(err, VamanaError::Validation(_)));

    let err = build(IndexParamsBuilder { vamana_iters: Some(shown(0.5)), ..IndexParams::builder() }).unwrap_err();
    assert!(matches!(err, VamanaError::Validation(_)));
}

#[test]
fn vamana_defaults_are_checked_too() {
    let mut created = record();
    created.record.metric = cuvsDistanceType::L1;
    let err = IndexParams::new(IndexParams::builder(), Ok(created)).unwrap_err().error;
    assert!(err.to_string().contains("L2Expanded"));
    let mut created = record();
    created.record.vamana_iters = shown(0.0);
    let err = IndexParams::new(IndexParams::builder(), Ok(created)).unwrap_err().error;
    assert_eq!(err.to_string(), "invalid parameter: vamana_iters must be >= 1.0, got 0");
}

#[test]
fn vamana_settings_go_into_their_fields() {
    let params = build(IndexParamsBuilder {
        metric: Some(DistanceType::L2Expanded),
        graph_degree: Some(128),
        visited_size: Some(256),
        vamana_iters: Some(shown(1.5)),
        alpha: Some(b32(1.25)),
        max_fraction: Some(b32(0.5)),
        batch_base: Some(b32(4.0)),
        queue_size: Some(255),
        reverse_batchsize: Some(77),
    })
    .unwrap();
    assert_eq!(params.record.graph_degree, 128);
    assert_eq!(params.record.visited_size, 256);
    assert_eq!(params.record.vamana_iters.value.to_bits(), 1.5f32.to_bits());
    assert_eq!(params.record.alpha.to_bits(), 1.25f32.to_bits());
    assert_eq!(params.record.max_fraction.to_bits(), 0.5f32.to_bits());
    assert_eq!(params.record.batch_base.to_bits(), 4.0f32.to_bits());
    assert_eq!((params.record.queue_size, params.record.reverse_batchsize), (255, 77));
    assert!(matches!(
        params.teardown(),
        Call::ParamsDestroy { kind: ParamsKind::VamanaIndex, params: 0x10 }
    ));
}

#[test]
fn vamana_index_is_built_and_written() {
    let res = Resources::new(Ok(0x77)).unwrap();
    let params = build(IndexParams::builder()).unwrap();
    let dataset = TorchTensor {
        data_ptr: 0x400,
        device: Device::Cuda(0),
        kind: Kind::Float,
        size: vec![256, 16],
        stride: vec![],
        is_contiguous: true,
    };
    let making = Index::build(&res, &params, tensor_view(&dataset).ok().unwrap()).ok().unwrap();
    assert!(matches!(
        &making,
        Construction::Create { work: Work::VamanaBuild { res: 0x77, params: 0x10, .. } }
    ));
    let index = match making.resume(Ok(0x5)).resume(Ok(0)) {
        made @ Construction::Done { .. } => Index::finish(made).unwrap(),
        _ => panic!("not finished"),
    };
    match index.serialize(&res, b"/tmp/vamana", true) {
        Ok(Call::VamanaSerialize { res, path, index, include_dataset }) => {
            assert_eq!((res, index), (0x77, 0x5));
            assert_eq!(path.as_bytes_with_nul(), b"/tmp/vamana\0");
            assert!(include_dataset);
        }
        _ => panic!("another outcome"),
    }
    assert!(matches!(index.dims(), Call::FigureGet { index: 0x5, figure: Figure::VamanaDims }));
    assert_eq!(Index::reported_dims(Ok(16)).unwrap(), 16i64);
    let err = Index::reported_dims(Err(LibraryError("gone".to_string()))).unwrap_err();
    assert_eq!(err.to_string(), "gone");
    assert!(matches!(index.teardown(), Call::IndexDestroy { kind: IndexKind::Vamana, index: 0x5 }));
}

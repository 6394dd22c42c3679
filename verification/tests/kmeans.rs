use cuvs::binary::Binary64;
use cuvs::call::{Call, ParamsKind};
use cuvs::cluster::kmeans::params::ParamsBuilder;
use cuvs::cluster::kmeans::{cluster_cost, fit, predict, KMeansError, KMeansInitMethod, Params};
use cuvs::distance::DistanceType;
use cuvs::dlpack::{DLPackError, DLTensorView, DLTensorViewMut};
use cuvs::error::LibraryError;
use cuvs::ffi::{cuvsDistanceType, cuvsKMeansInitMethod, cuvsKMeansParams, Created};
use cuvs::resources::Resources;
use cuvs::torch::{tensor_view, tensor_view_mut, Device, Kind, TorchTensor};

fn b64(x: f64) -> Binary64 {
    Binary64::from_bits(x.to_bits())
}

fn record() -> Created<cuvsKMeansParams> {
    Created {
        handle: 0x10,
        record: cuvsKMeansParams {
            metric: cuvsDistanceType::L2Expanded,
            n_clusters: 8,
            init: cuvsKMeansInitMethod::KMeansPlusPlus,
            max_iter: 300,
            tol: b64(1e-4),
            n_init: 1,
            oversampling_factor: b64(2.0),
            batch_samples: 1 << 15,
            batch_centroids: 0,
            inertia_check: false,
            hierarchical: false,
            hierarchical_n_iters: 20,
            streaming_batch_size: 0,
        },
    }
}

fn build(options: ParamsBuilder) -> Result<Params, KMeansError> {
    Params::new(options, Ok(record())).map_err(|refused| refused.error)
}

fn cuda(size: &[i64]) -> TorchTensor {
    TorchTensor {
        data_ptr: 0x400,
        device: Device::Cuda(0),
        kind: Kind::Float,
        size: size.to_vec(),
        stride: vec![],
        is_contiguous: true,
    }
}

fn view(size: &[i64]) -> DLTensorView<'static> {
    tensor_view(&cuda(size)).ok().unwrap()
}

fn view_mut(size: &[i64]) -> DLTensorViewMut<'static> {
    tensor_view_mut(&cuda(size)).ok().unwrap()
}

#[test]
fn rejects_non_positive_n_clusters() {
    let res = build(ParamsBuilder { n_clusters: Some(0), ..Params::builder() });
    assert!(matches!(res, Err(KMeansError::Validation(_))));
}

#[test]
fn builder_sets_streaming_batch_size() {
    let p = build(ParamsBuilder { streaming_batch_size: Some(128), ..Params::builder() }).unwrap();
    assert_eq!(p.record.streaming_batch_size, 128);
}

#[test]
fn kmeans_settings_have_their_bounds() {
    let cases = [
        (ParamsBuilder { n_clusters: Some(-1), ..Params::builder() }, "n_clusters must be > 0"),
        (ParamsBuilder { max_iter: Some(-1), ..Params::builder() }, "max_iter must be >= 0"),
        (ParamsBuilder { n_init: Some(0), ..Params::builder() }, "n_init must be > 0"),
        (ParamsBuilder { hierarchical_n_iters: Some(-1), ..Params::builder() }, "hierarchical_n_iters must be >= 0"),
        (ParamsBuilder { streaming_batch_size: Some(-1), ..Params::builder() }, "streaming_batch_size must be >= 0"),
    ];
    for (options, text) in cases {
        let err = build(options).unwrap_err();
        assert_eq!(err.to_string(), format!("invalid parameter: {text}"));
    }
    let zeros = ParamsBuilder {
        max_iter: Some(0),
        hierarchical_n_iters: Some(0),
        streaming_batch_size: Some(0),
        ..Params::builder()
    };
    build(zeros).unwrap();
}

#[test]
fn kmeans_first_broken_rule_decides() {
    let options = ParamsBuilder { n_clusters: Some(0), n_init: Some(0), ..Params::builder() };
    assert_eq!(build(options).unwrap_err().to_string(), "invalid parameter: n_clusters must be > 0");
}

#[test]
fn kmeans_settings_go_into_their_fields() {
    let p = build(ParamsBuilder {
        metric: Some(DistanceType::InnerProduct),
        n_clusters: Some(4),
        init: Some(KMeansInitMethod::Array),
        max_iter: Some(50),
        tol: Some(b64(0.5)),
        n_init: Some(3),
        oversampling_factor: Some(b64(1.5)),
        batch_samples: Some(7),
        batch_centroids: Some(8),
        inertia_check: Some(true),
        hierarchical: Some(true),
        hierarchical_n_iters: Some(9),
        streaming_batch_size: Some(10),
    })
    .unwrap();
    let r = p.record;
    assert_eq!(r.metric, cuvsDistanceType::InnerProduct);
    assert_eq!((r.n_clusters, r.max_iter, r.n_init), (4, 50, 3));
    assert_eq!(r.init, cuvsKMeansInitMethod::Array);
    assert_eq!(r.tol.to_bits(), 0.5f64.to_bits());
    assert_eq!(r.oversampling_factor.to_bits(), 1.5f64.to_bits());
    assert_eq!((r.batch_samples, r.batch_centroids), (7, 8));
    assert!(r.inertia_check && r.hierarchical);
    assert_eq!((r.hierarchical_n_iters, r.streaming_batch_size), (9, 10));
}

#[test]
fn kmeans_params_are_given_back_once() {
    let mut p = build(Params::builder()).unwrap();
    assert_eq!(p.as_ptr(), 0x10);
    assert!(matches!(p.teardown(), Some(Call::ParamsDestroy { kind: ParamsKind::KMeans, params: 0x10 })));
    assert!(p.teardown().is_none());
    assert_eq!(p.record.n_clusters, build(Params::builder()).unwrap().record.n_clusters);
}

#[test]
fn kmeans_calls_hand_over_their_tensors() {
    let res = Resources::new(Ok(0x77)).unwrap();
    let params = build(Params::builder()).unwrap();
    match fit(&res, &params, view(&[200, 8]), None::<DLTensorView<'_>>, view_mut(&[4, 8])) {
        Ok(Call::KMeansFit { res, params, x, sample_weight, centroids }) => {
            assert_eq!((res, params), (0x77, 0x10));
            assert_eq!(x.shape(), &[200, 8]);
            assert!(sample_weight.is_none());
            assert_eq!(centroids.shape(), &[4, 8]);
        }
        _ => panic!("another outcome"),
    }
    match predict(&res, &params, view(&[200, 8]), Some(view(&[200])), view(&[4, 8]), view_mut(&[200]), true) {
        Ok(Call::KMeansPredict { sample_weight, centroids, labels, normalize_weight, .. }) => {
            assert_eq!(sample_weight.unwrap().shape(), &[200]);
            assert_eq!(centroids.shape(), &[4, 8]);
            assert_eq!(labels.shape(), &[200]);
            assert!(normalize_weight);
        }
        _ => panic!("another outcome"),
    }
    match cluster_cost(&res, view(&[200, 8]), view(&[4, 8])) {
        Ok(Call::KMeansClusterCost { res, x, centroids }) => {
            assert_eq!(res, 0x77);
            assert_eq!(x.shape(), &[200, 8]);
            assert_eq!(centroids.shape(), &[4, 8]);
        }
        _ => panic!("another outcome"),
    }
}

#[test]
fn kmeans_errors_have_their_messages() {
    assert_eq!(KMeansError::from(LibraryError("lib".to_string())).to_string(), "lib");
    let err = KMeansError::from(DLPackError::UnsupportedDType("QInt8".to_string()));
    assert_eq!(err.to_string(), "unsupported tensor dtype: QInt8");
    let refused = Params::new(Params::builder(), Err(LibraryError("x".to_string()))).unwrap_err();
    assert!(matches!(refused.error, KMeansError::Library(_)));
    assert!(refused.calls.is_empty());
}

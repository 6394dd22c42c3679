use cuvs::binary::{Binary32, Binary64, Shown64};
use cuvs::call::{Call, Figure, IndexKind, Inside, ParamsKind, Work};
use cuvs::construction::Construction;
use cuvs::distance::DistanceType;
use cuvs::dlpack::{DLDataType, DLDataTypeCode, DLPackError, DLTensorView, DLTensorViewMut};
use cuvs::error::LibraryError;
use cuvs::ffi::{cuvsDistanceType, cuvsFilterType, cuvsIvfFlatIndexParams, cuvsIvfFlatSearchParams, Created};
use cuvs::neighbors::filters::{Bitmap, Bitset, Filter, SearchFilter};
use cuvs::neighbors::ivf_flat::params::{IndexParamsBuilder, SearchParamsBuilder};
use cuvs::neighbors::ivf_flat::{Index, IndexParams, IvfFlatError, SearchParams};
use cuvs::resources::Resources;
use cuvs::torch::{tensor_view, tensor_view_mut, Device, Kind, TorchTensor};

fn shown(x: f64) -> Shown64 {
    Shown64 { value: Binary64::from_bits(x.to_bits()), text: x.to_string() }
}

fn index_record() -> Created<cuvsIvfFlatIndexParams> {
    Created {
        handle: 0x10,
        record: cuvsIvfFlatIndexParams {
            metric: cuvsDistanceType::L2Expanded,
            metric_arg: Binary32::from_bits(2.0f32.to_bits()),
            add_data_on_build: true,
            n_lists: 1024,
            kmeans_n_iters: 20,
            kmeans_trainset_fraction: Binary64::from_bits(0.5f64.to_bits()),
            adaptive_centers: false,
            conservative_memory_allocation: false,
        },
    }
}

fn search_record() -> Created<cuvsIvfFlatSearchParams> {
    Created { handle: 0x20, record: cuvsIvfFlatSearchParams { n_probes: 20 } }
}

fn dl_dtype(code: DLDataTypeCode, bits: u8) -> DLDataType {
    DLDataType { code: code.as_u8(), bits, lanes: 1 }
}

fn resources() -> Resources {
    Resources::new(Ok(0x77)).unwrap()
}

fn cuda(kind: Kind, size: &[i64]) -> TorchTensor {
    TorchTensor {
        data_ptr: 0x400,
        device: Device::Cuda(0),
        kind,
        size: size.to_vec(),
        stride: vec![],
        is_contiguous: true,
    }
}

fn queries() -> DLTensorView<'static> {
    tensor_view(&cuda(Kind::Float, &[4, 16])).ok().unwrap()
}

fn neighbors() -> DLTensorViewMut<'static> {
    tensor_view_mut(&cuda(Kind::Int64, &[4, 10])).ok().unwrap()
}

fn distances() -> DLTensorViewMut<'static> {
    tensor_view_mut(&cuda(Kind::Float, &[4, 10])).ok().unwrap()
}

fn bits() -> DLTensorView<'static> {
    tensor_view(&cuda(Kind::Int, &[1])).ok().unwrap()
}

fn index() -> Index {
    Index::finish(Construction::Done { outcome: Ok(0x99) }).unwrap()
}

fn search_params() -> SearchParams {
    SearchParams::new(SearchParamsBuilder { n_probes: Some(16) }, Ok(search_record())).unwrap()
}

#[test]
fn index_params_reject_zero_n_lists() {
    let options = IndexParamsBuilder { n_lists: Some(0), ..IndexParams::builder() };
    let err = IndexParams::new(options, Ok(index_record())).unwrap_err().error;
    assert!(matches!(err, IvfFlatError::Validation(_)));
    assert_eq!(err.to_string(), "invalid parameter: n_lists must be > 0");
}

#[test]
fn index_params_try_new_uses_library_defaults() {
    let params = IndexParams::try_new(Ok(index_record())).unwrap();
    assert_eq!(params.record.metric, cuvsDistanceType::L2Expanded);
    assert!(params.record.n_lists > 0);
}

#[test]
fn index_params_reject_out_of_range_trainset_fraction() {
    for frac in [0.0, 1.5] {
        let options = IndexParamsBuilder { kmeans_trainset_fraction: Some(shown(frac)), ..IndexParams::builder() };
        let err = IndexParams::new(options, Ok(index_record())).unwrap_err().error;
        assert!(matches!(err, IvfFlatError::Validation(_)));
        assert_eq!(
            err.to_string(),
            format!("invalid parameter: kmeans_trainset_fraction must be in (0, 1], got {frac}")
        );
    }
}

#[test]
fn index_params_accept_the_whole_trainset() {
    let options = IndexParamsBuilder { kmeans_trainset_fraction: Some(shown(1.0)), ..IndexParams::builder() };
    let params = IndexParams::new(options, Ok(index_record())).unwrap();
    assert_eq!(params.record.kmeans_trainset_fraction.to_bits(), 1.0f64.to_bits());
    assert_eq!(params.record.n_lists, 1024);
    assert!(matches!(
        params.teardown(),
        Call::ParamsDestroy { kind: ParamsKind::IvfFlatIndex, params: 0x10 }
    ));
}

#[test]
fn search_params_reject_zero_n_probes() {
    let err = SearchParams::new(SearchParamsBuilder { n_probes: Some(0) }, Ok(search_record())).unwrap_err().error;
    assert!(matches!(err, IvfFlatError::Validation(_)));
    assert_eq!(err.to_string(), "invalid parameter: n_probes must be > 0");
}

#[test]
fn search_params_try_new_uses_library_defaults() {
    let params = SearchParams::try_new(Ok(search_record())).unwrap();
    assert!(params.record.n_probes > 0);
}

#[test]
fn lp_metric_sets_metric_arg_from_distance_type() {
    let p = Binary32::from_bits(3.0f32.to_bits());
    let options = IndexParamsBuilder { metric: Some(DistanceType::LpUnexpanded(p)), ..IndexParams::builder() };
    let params = IndexParams::new(options, Ok(index_record())).unwrap();
    assert_eq!(params.record.metric, cuvsDistanceType::LpUnexpanded);
    assert_eq!(f32::from_bits(params.record.metric_arg.to_bits()), 3.0);
}

#[test]
fn query_dtype_validation_requires_exact_code_and_bits_match() {
    Index::validate_query_dtype(
        dl_dtype(DLDataTypeCode::kDLFloat, 32),
        dl_dtype(DLDataTypeCode::kDLFloat, 32),
    )
    .unwrap();

    let err = Index::validate_query_dtype(
        dl_dtype(DLDataTypeCode::kDLFloat, 32),
        dl_dtype(DLDataTypeCode::kDLFloat, 16),
    )
    .unwrap_err();
    assert!(matches!(err, IvfFlatError::Validation(_)));
    assert_eq!(
        err.to_string(),
        "invalid parameter: queries dtype must match the index dtype exactly: \
         index has code=2 bits=32, got code=2 bits=16"
    );
}

#[test]
fn search_with_bitmap_filter_returns_validation_error() {
    let filter = SearchFilter::Bitmap(Filter::<Bitmap>::new(bits()).ok().unwrap());
    let err = index()
        .search_filtered(
            &resources(),
            &search_params(),
            dl_dtype(DLDataTypeCode::kDLFloat, 32),
            queries(),
            neighbors(),
            distances(),
            &filter,
        )
        .err()
        .unwrap();
    assert!(matches!(err, IvfFlatError::Validation(_)));
    assert_eq!(err.to_string(), "invalid parameter: bitmap filters are not supported for IVF-Flat");
}

#[test]
fn ivf_flat_search_hands_over_its_arguments() {
    let filter = SearchFilter::Bitset(Filter::<Bitset>::new(bits()).ok().unwrap());
    let dtype = dl_dtype(DLDataTypeCode::kDLFloat, 32);
    let call = index()
        .search_filtered(&resources(), &search_params(), dtype, queries(), neighbors(), distances(), &filter)
        .ok()
        .unwrap();
    match call {
        Call::IvfFlatSearch { res, params, index, queries, neighbors, distances, filter } => {
            assert_eq!((res, params, index), (0x77, 0x20, 0x99));
            assert_eq!(queries.shape(), &[4, 16]);
            assert_eq!(neighbors.dtype().bits, 64);
            assert_eq!(distances.shape(), &[4, 10]);
            assert_eq!(filter.type_, cuvsFilterType::BITSET);
            assert_eq!(filter.words.unwrap().inner.dl_tensor.data, 0x400);
        }
        _ => panic!("another call"),
    }
}

#[test]
fn ivf_flat_search_refuses_other_query_types() {
    let dtype = dl_dtype(DLDataTypeCode::kDLInt, 8);
    let err = index()
        .search(&resources(), &search_params(), dtype, queries(), neighbors(), distances())
        .err()
        .unwrap();
    assert_eq!(
        err.to_string(),
        "invalid parameter: queries dtype must match the index dtype exactly: \
         index has code=0 bits=8, got code=2 bits=32"
    );
}

#[test]
fn ivf_flat_build_destroys_a_handle_that_could_not_be_filled() {
    let params = IndexParams::try_new(Ok(index_record())).unwrap();
    let making = Index::build(&resources(), &params, queries()).ok().unwrap();
    match &making {
        Construction::Create { work: Work::IvfFlatBuild { res, params, dataset } } => {
            assert_eq!((*res, *params), (0x77, 0x10));
            assert_eq!(dataset.shape(), &[4, 16]);
        }
        _ => panic!("another step"),
    }
    let making = making.resume(Ok(0x500));
    assert!(matches!(&making, Construction::Fill { index: 0x500, .. }));
    let making = making.resume(Err(LibraryError("too few rows".to_string())));
    assert!(matches!(&making, Construction::Release { kind: IndexKind::IvfFlat, index: 0x500, .. }));
    match making.resume(Ok(0)) {
        made @ Construction::Done { .. } => {
            let err = Index::finish(made).unwrap_err();
            assert_eq!(err.to_string(), "too few rows");
        }
        _ => panic!("not finished"),
    }
}

#[test]
fn ivf_flat_paths_must_be_free_of_zeros() {
    let err = index().serialize(&resources(), b"a\0b").err().unwrap();
    assert!(matches!(err, IvfFlatError::InvalidPath(_)));
    assert_eq!(err.to_string(), "path contains interior NUL byte");
    assert!(Index::deserialize(&resources(), b"\0").is_err());
    match Index::deserialize(&resources(), b"x").ok().unwrap() {
        Construction::Create { work: Work::IvfFlatDeserialize { res, path } } => {
            assert_eq!(res, 0x77);
            assert_eq!(path.as_bytes_with_nul(), b"x\0");
        }
        _ => panic!("another step"),
    }
}

#[test]
fn ivf_flat_errors_have_their_messages() {
    let err = IvfFlatError::from(LibraryError("lib".to_string()));
    assert_eq!(err.to_string(), "lib");
    let err = IvfFlatError::from(DLPackError::InvalidMetadata("odd"));
    assert_eq!(err.to_string(), "invalid DLPack metadata: odd");
}

#[test]
fn ivf_flat_accessors_ask_the_index() {
    assert!(matches!(index().n_lists(), Call::FigureGet { index: 0x99, figure: Figure::IvfFlatNLists }));
    assert!(matches!(index().dims(), Call::FigureGet { index: 0x99, figure: Figure::IvfFlatDim }));
    assert!(matches!(index().centers(), Call::TensorGet { index: 0x99, tensor: Inside::IvfFlatCenters }));
    assert!(matches!(index().teardown(), Call::IndexDestroy { kind: IndexKind::IvfFlat, index: 0x99 }));
}

use cuvs::binary::{Binary32, Binary64, Shown64};
use cuvs::call::{Call, Figure, IndexKind, Inside, ParamsKind, Work};
use cuvs::construction::Construction;
use cuvs::distance::DistanceType;
use cuvs::dlpack::{DLDataType, DLDataTypeCode, DLTensorView, DLTensorViewMut};
use cuvs::error::LibraryError;
use cuvs::ffi::{
    cudaDataType_t, cuvsDistanceType, cuvsIvfPqCodebookGen, cuvsIvfPqIndexParams, cuvsIvfPqListLayout,
    cuvsIvfPqSearchParams, Created,
};
use cuvs::neighbors::ivf_pq::params::{IndexParamsBuilder, SearchParamsBuilder};
use cuvs::neighbors::ivf_pq::{
    CoarseSearchDType, CodebookGen, Index, IndexParams, InternalDistanceDType, IvfPqError, ListLayout, LutDType,
    PrecomputedIndex, SearchParams,
};
use cuvs::resources::Resources;
use cuvs::torch::{tensor_view, tensor_view_mut, Device, Kind, TorchTensor};

fn shown(x: f64) -> Shown64 {
    Shown64 { value: Binary64::from_bits(x.to_bits()), text: x.to_string() }
}

fn index_record() -> Created<cuvsIvfPqIndexParams> {
    Created {
        handle: 0x10,
        record: cuvsIvfPqIndexParams {
            metric: cuvsDistanceType::L2Expanded,
            metric_arg: Binary32::from_bits(2.0f32.to_bits()),
            add_data_on_build: true,
            n_lists: 1024,
            kmeans_n_iters: 20,
            kmeans_trainset_fraction: Binary64::from_bits(0.5f64.to_bits()),
            pq_bits: 8,
            pq_dim: 0,
            codebook_kind: cuvsIvfPqCodebookGen::CUVS_IVF_PQ_CODEBOOK_GEN_PER_SUBSPACE,
            force_random_rotation: false,
            conservative_memory_allocation: false,
            max_train_points_per_pq_code: 256,
            codes_layout: cuvsIvfPqListLayout::CUVS_IVF_PQ_LIST_LAYOUT_INTERLEAVED,
        },
    }
}

fn search_record() -> Created<cuvsIvfPqSearchParams> {
    Created {
        handle: 0x20,
        record: cuvsIvfPqSearchParams {
            n_probes: 20,
            lut_dtype: cudaDataType_t::CUDA_R_32F,
            internal_distance_dtype: cudaDataType_t::CUDA_R_32F,
            coarse_search_dtype: cudaDataType_t::CUDA_R_32F,
            max_internal_batch_size: 4096,
            preferred_shmem_carveout: Binary64::from_bits(1.0f64.to_bits()),
        },
    }
}

fn build(options: IndexParamsBuilder) -> Result<IndexParams, IvfPqError> {
    IndexParams::new(options, Ok(index_record())).map_err(|refused| refused.error)
}

fn search(options: SearchParamsBuilder) -> Result<SearchParams, IvfPqError> {
    SearchParams::new(options, Ok(search_record())).map_err(|refused| refused.error)
}

fn dl_dtype(code: DLDataTypeCode, bits: u8) -> DLDataType {
    DLDataType { code: code.as_u8(), bits, lanes: 1 }
}

fn resources() -> Resources {
    Resources::new(Ok(0x77)).unwrap()
}

fn cuda(kind: Kind, size: &[i64]) -> TorchTensor {
    TorchTensor {
        data_ptr: 0x400,
        device: Device::Cuda(0),
        kind,
        size: size.to_vec(),
        stride: vec![],
        is_contiguous: true,
    }
}

fn view(kind: Kind, size: &[i64]) -> DLTensorView<'static> {
    tensor_view(&cuda(kind, size)).ok().unwrap()
}

fn view_mut(kind: Kind, size: &[i64]) -> DLTensorViewMut<'static> {
    tensor_view_mut(&cuda(kind, size)).ok().unwrap()
}

fn u32_vector(len: i64) -> DLTensorViewMut<'static> {
    let tensor = view(Kind::Int, &[len]);
    DLTensorViewMut::from_raw_parts(
        tensor.data(),
        tensor.device(),
        tensor.shape(),
        None,
        dl_dtype(DLDataTypeCode::kDLUInt, 32),
    )
    .ok()
    .unwrap()
}

fn index() -> Index {
    Index::finish(Construction::Done { outcome: Ok(0x99) }).unwrap()
}

#[test]
fn params_index_params_reject_zero_n_lists() {
    let err = build(IndexParamsBuilder { n_lists: Some(0), ..IndexParams::builder() }).unwrap_err();
    assert!(matches!(err, IvfPqError::Validation(_)));
}

#[test]
fn index_params_reject_invalid_pq_bits() {
    let err = build(IndexParamsBuilder { pq_bits: Some(3), ..IndexParams::builder() }).unwrap_err();
    assert!(matches!(err, IvfPqError::Validation(_)));
    assert_eq!(err.to_string(), "invalid parameter: pq_bits must be within [4, 8], got 3");
    let err = build(IndexParamsBuilder { pq_bits: Some(9), ..IndexParams::builder() }).unwrap_err();
    assert_eq!(err.to_string(), "invalid parameter: pq_bits must be within [4, 8], got 9");
}

#[test]
fn index_params_reject_invalid_pq_dim_alignment() {
    let options = IndexParamsBuilder { pq_bits: Some(5), pq_dim: Some(3), ..IndexParams::builder() };
    let err = build(options).unwrap_err();
    assert!(matches!(err, IvfPqError::Validation(_)));
    assert_eq!(
        err.to_string(),
        "invalid parameter: pq_dim * pq_bits must be a multiple of 8, got pq_dim=3, pq_bits=5"
    );
}

#[test]
fn index_params_accept_aligned_pq_dims() {
    for (bits, dim) in [(None, Some(3)), (Some(8), Some(u32::MAX)), (Some(5), Some(16)), (Some(4), Some(2)), (Some(7), Some(0))] {
        let options = IndexParamsBuilder { pq_bits: bits, pq_dim: dim, ..IndexParams::builder() };
        let params = build(options).unwrap();
        assert_eq!(params.record.pq_dim, dim.unwrap());
        assert_eq!(params.record.pq_bits, bits.unwrap_or(8));
    }
}

#[test]
fn index_params_reject_other_trainset_fractions() {
    let options = IndexParamsBuilder { kmeans_trainset_fraction: Some(shown(f64::NAN)), ..IndexParams::builder() };
    let err = build(options).unwrap_err();
    assert_eq!(err.to_string(), "invalid parameter: kmeans_trainset_fraction must be in (0, 1], got NaN");
}

#[test]
fn index_params_put_every_setting_into_its_field() {
    let params = build(IndexParamsBuilder {
        metric: Some(DistanceType::InnerProduct),
        n_lists: Some(11),
        kmeans_n_iters: Some(12),
        kmeans_trainset_fraction: Some(shown(0.25)),
        pq_bits: Some(4),
        pq_dim: Some(14),
        codebook_kind: Some(CodebookGen::PerCluster),
        codes_layout: Some(ListLayout::Flat),
        force_random_rotation: Some(true),
        conservative_memory_allocation: Some(true),
        max_train_points_per_pq_code: Some(15),
        add_data_on_build: Some(false),
    })
    .unwrap();
    let record = params.record;
    assert_eq!(record.metric, cuvsDistanceType::InnerProduct);
    assert_eq!((record.n_lists, record.kmeans_n_iters), (11, 12));
    assert_eq!(record.kmeans_trainset_fraction.to_bits(), 0.25f64.to_bits());
    assert_eq!((record.pq_bits, record.pq_dim), (4, 14));
    assert_eq!(record.codebook_kind, cuvsIvfPqCodebookGen::CUVS_IVF_PQ_CODEBOOK_GEN_PER_CLUSTER);
    assert_eq!(record.codes_layout, cuvsIvfPqListLayout::CUVS_IVF_PQ_LIST_LAYOUT_FLAT);
    assert!(record.force_random_rotation && record.conservative_memory_allocation);
    assert_eq!(record.max_train_points_per_pq_code, 15);
    assert!(!record.add_data_on_build);
    assert!(matches!(
        params.teardown(),
        Call::ParamsDestroy { kind: ParamsKind::IvfPqIndex, params: 0x10 }
    ));
}

#[test]
fn params_search_params_reject_zero_n_probes() {
    let err = search(SearchParamsBuilder { n_probes: Some(0), ..SearchParams::builder() }).unwrap_err();
    assert!(matches!(err, IvfPqError::Validation(_)));
}

#[test]
fn search_params_reject_out_of_range_carveout() {
    let options = SearchParamsBuilder { preferred_shmem_carveout: Some(shown(1.5)), ..SearchParams::builder() };
    let err = search(options).unwrap_err();
    assert!(matches!(err, IvfPqError::Validation(_)));
    assert_eq!(err.to_string(), "invalid parameter: preferred_shmem_carveout must be in [0, 1], got 1.5");
    let options = SearchParamsBuilder { preferred_shmem_carveout: Some(shown(0.0)), ..SearchParams::builder() };
    search(options).unwrap();
}

#[test]
fn search_params_reject_invalid_dtype_combinations() {
    let err = search(SearchParamsBuilder {
        lut_dtype: Some(LutDType::F32),
        internal_distance_dtype: Some(InternalDistanceDType::F16),
        ..SearchParams::builder()
    })
    .unwrap_err();
    assert!(matches!(err, IvfPqError::Validation(_)));
    assert_eq!(
        err.to_string(),
        "invalid parameter: internal_distance_dtype must be at least as wide as lut_dtype"
    );

    let params = search(SearchParamsBuilder {
        lut_dtype: Some(LutDType::U8),
        internal_distance_dtype: Some(InternalDistanceDType::F16),
        coarse_search_dtype: Some(CoarseSearchDType::I8),
        ..SearchParams::builder()
    })
    .unwrap();
    assert_eq!(params.record.lut_dtype, cudaDataType_t::CUDA_R_8U);
    assert_eq!(params.record.internal_distance_dtype, cudaDataType_t::CUDA_R_16F);
    assert_eq!(params.record.coarse_search_dtype, cudaDataType_t::CUDA_R_8I);
    assert_eq!(params.record.n_probes, 20);
}

#[test]
fn params_lp_metric_sets_metric_arg_from_distance_type() {
    let p = Binary32::from_bits(4.0f32.to_bits());
    let options = IndexParamsBuilder { metric: Some(DistanceType::LpUnexpanded(p)), ..IndexParams::builder() };
    let params = build(options).unwrap();
    assert_eq!(params.record.metric, cuvsDistanceType::LpUnexpanded);
    assert_eq!(f32::from_bits(params.record.metric_arg.to_bits()), 4.0);
}

#[test]
fn query_dtype_validation_requires_exact_match() {
    Index::validate_query_dtype(
        dl_dtype(DLDataTypeCode::kDLFloat, 32),
        dl_dtype(DLDataTypeCode::kDLFloat, 32),
    )
    .unwrap();

    let err = Index::validate_query_dtype(
        dl_dtype(DLDataTypeCode::kDLFloat, 32),
        dl_dtype(DLDataTypeCode::kDLFloat, 16),
    )
    .unwrap_err();
    assert!(matches!(err, IvfPqError::Validation(_)));
}

#[test]
fn query_dtype_validation_allows_unknown_index_metadata() {
    Index::validate_query_dtype(
        DLDataType { code: 0, bits: 0, lanes: 1 },
        dl_dtype(DLDataTypeCode::kDLFloat, 32),
    )
    .unwrap();
}

#[test]
fn transform_output_dtype_validation_requires_u32_and_u8() {
    Index::validate_transform_output_dtypes(
        dl_dtype(DLDataTypeCode::kDLUInt, 32),
        dl_dtype(DLDataTypeCode::kDLUInt, 8),
    )
    .unwrap();

    let err = Index::validate_transform_output_dtypes(
        dl_dtype(DLDataTypeCode::kDLInt, 32),
        dl_dtype(DLDataTypeCode::kDLUInt, 8),
    )
    .unwrap_err();
    assert!(matches!(err, IvfPqError::Validation(_)));
    assert_eq!(
        err.to_string(),
        "invalid parameter: output_labels must use uint32 dtype, got code=0 bits=32"
    );

    let err = Index::validate_transform_output_dtypes(
        dl_dtype(DLDataTypeCode::kDLUInt, 32),
        dl_dtype(DLDataTypeCode::kDLInt, 8),
    )
    .unwrap_err();
    assert_eq!(
        err.to_string(),
        "invalid parameter: output_dataset must use uint8 dtype, got code=0 bits=8"
    );
}

#[test]
fn list_access_rejects_out_of_range_labels() {
    let n_lists = 16i64;
    let invalid_label = n_lists as u32;
    let err = index().list_indices(invalid_label, Ok(n_lists)).err().unwrap();
    assert!(matches!(err, IvfPqError::Validation(_)));
    assert_eq!(err.to_string(), "invalid parameter: label must be < n_lists (16), got 16");

    let err = index()
        .unpack_contiguous_list_data(&resources(), view_mut(Kind::Uint8, &[1, 8]), invalid_label, 0, Ok(n_lists))
        .err()
        .unwrap();
    assert!(matches!(err, IvfPqError::Validation(_)));
}

#[test]
fn list_access_admits_labels_in_range() {
    assert!(matches!(
        index().list_indices(15, Ok(16)),
        Ok(Call::TensorGet { index: 0x99, tensor: Inside::IvfPqListIndices(15) })
    ));
    let err = index().list_indices(0, Ok(-1)).err().unwrap();
    assert_eq!(err.to_string(), "invalid parameter: label must be < n_lists (-1), got 0");
    let err = index().list_indices(0, Err(LibraryError("gone".to_string()))).err().unwrap();
    assert_eq!(err.to_string(), "gone");
    match index().unpack_contiguous_list_data(&resources(), view_mut(Kind::Uint8, &[3, 8]), 2, 5, Ok(16)) {
        Ok(Call::IvfPqUnpackContiguousListData { res, index, out_codes, label, offset }) => {
            assert_eq!((res, index, label, offset), (0x77, 0x99, 2, 5));
            assert_eq!(out_codes.shape(), &[3, 8]);
        }
        _ => panic!("another outcome"),
    }
}

#[test]
fn ivf_pq_search_checks_the_query_type() {
    let params = SearchParams::new(SearchParams::builder(), Ok(search_record())).unwrap();
    let run = |dtype: DLDataType| {
        index().search(
            &resources(),
            &params,
            dtype,
            view(Kind::Half, &[4, 32]),
            view_mut(Kind::Int64, &[4, 10]),
            view_mut(Kind::Float, &[4, 10]),
        )
    };
    match run(dl_dtype(DLDataTypeCode::kDLFloat, 16)) {
        Ok(Call::IvfPqSearch { res, params, index, queries, .. }) => {
            assert_eq!((res, params, index), (0x77, 0x20, 0x99));
            assert_eq!(queries.shape(), &[4, 32]);
        }
        _ => panic!("another outcome"),
    }
    assert!(run(DLDataType { code: 0, bits: 0, lanes: 0 }).is_ok());
    assert!(matches!(run(dl_dtype(DLDataTypeCode::kDLFloat, 32)), Err(IvfPqError::Validation(_))));
}

#[test]
fn ivf_pq_transform_checks_its_outputs() {
    let input = || view(Kind::Float, &[8, 32]);
    match index().transform(&resources(), input(), u32_vector(8), view_mut(Kind::Uint8, &[8, 8])) {
        Ok(Call::IvfPqTransform { res, index, input_dataset, output_labels, output_dataset }) => {
            assert_eq!((res, index), (0x77, 0x99));
            assert_eq!(input_dataset.shape(), &[8, 32]);
            assert_eq!(output_labels.dtype(), dl_dtype(DLDataTypeCode::kDLUInt, 32));
            assert_eq!(output_dataset.shape(), &[8, 8]);
        }
        _ => panic!("another outcome"),
    }
    let err = index()
        .transform(&resources(), input(), view_mut(Kind::Int, &[8]), view_mut(Kind::Uint8, &[8, 8]))
        .err()
        .unwrap();
    assert!(matches!(err, IvfPqError::Validation(_)));
}

#[test]
fn ivf_pq_precomputed_index_keeps_its_tensors_apart() {
    let params = build(IndexParams::builder()).unwrap();
    let making = Index::build_precomputed(
        &resources(),
        &params,
        32,
        view(Kind::Float, &[8, 4, 256]),
        view(Kind::Float, &[16, 40]),
        view(Kind::Float, &[16, 32]),
        view(Kind::Float, &[32, 32]),
    )
    .ok()
    .unwrap();
    match &making {
        Construction::Create {
            work:
                Work::IvfPqBuildPrecomputed {
                    res,
                    params,
                    dim,
                    pq_centers,
                    centers_padded,
                    centers_rot,
                    rotation_matrix,
                },
        } => {
            assert_eq!((*res, *params, *dim), (0x77, 0x10, 32));
            assert_eq!(pq_centers.shape(), &[8, 4, 256]);
            assert_eq!(centers_padded.shape(), &[16, 40]);
            assert_eq!(centers_rot.shape(), &[16, 32]);
            assert_eq!(rotation_matrix.shape(), &[32, 32]);
        }
        _ => panic!("another step"),
    }
    match making.resume(Ok(0x321)).resume(Ok(0)) {
        made @ Construction::Done { .. } => {
            let precomputed = PrecomputedIndex::finish(made).unwrap();
            assert!(matches!(precomputed.size(), Call::FigureGet { index: 0x321, figure: Figure::IvfPqSize }));
            assert!(matches!(
                precomputed.teardown(),
                Call::IndexDestroy { kind: IndexKind::IvfPq, index: 0x321 }
            ));
        }
        _ => panic!("not finished"),
    }
}

#[test]
fn ivf_pq_extend_hands_over_vectors_and_numbers() {
    let mut extended = index();
    match extended.extend(&resources(), view(Kind::Float, &[64, 32]), view(Kind::Int64, &[64])) {
        Ok(Call::IvfPqExtend { res, new_vectors, new_indices, index }) => {
            assert_eq!((res, index), (0x77, 0x99));
            assert_eq!(new_vectors.shape(), &[64, 32]);
            assert_eq!(new_indices.shape(), &[64]);
        }
        _ => panic!("another outcome"),
    }
}

#[test]
fn ivf_pq_accessors_ask_the_index() {
    let i = index();
    assert!(matches!(i.n_lists(), Call::FigureGet { index: 0x99, figure: Figure::IvfPqNLists }));
    assert!(matches!(i.dims(), Call::FigureGet { index: 0x99, figure: Figure::IvfPqDim }));
    assert!(matches!(i.pq_dim(), Call::FigureGet { index: 0x99, figure: Figure::IvfPqPqDim }));
    assert!(matches!(i.pq_bits(), Call::FigureGet { index: 0x99, figure: Figure::IvfPqPqBits }));
    assert!(matches!(i.pq_len(), Call::FigureGet { index: 0x99, figure: Figure::IvfPqPqLen }));
    assert!(matches!(i.centers(), Call::TensorGet { index: 0x99, tensor: Inside::IvfPqCenters }));
    assert!(matches!(i.centers_padded(), Call::TensorGet { index: 0x99, tensor: Inside::IvfPqCentersPadded }));
    assert!(matches!(i.pq_centers(), Call::TensorGet { index: 0x99, tensor: Inside::IvfPqPqCenters }));
    assert!(matches!(i.centers_rot(), Call::TensorGet { index: 0x99, tensor: Inside::IvfPqCentersRot }));
    assert!(matches!(i.rotation_matrix(), Call::TensorGet { index: 0x99, tensor: Inside::IvfPqRotationMatrix }));
    assert!(matches!(i.list_sizes(), Call::TensorGet { index: 0x99, tensor: Inside::IvfPqListSizes }));
    assert!(matches!(i.teardown(), Call::IndexDestroy { kind: IndexKind::IvfPq, index: 0x99 }));
}

#[test]
fn ivf_pq_choices_round_trip() {
    for kind in [CodebookGen::PerSubspace, CodebookGen::PerCluster] {
        assert_eq!(CodebookGen::from(cuvsIvfPqCodebookGen::from(kind)), kind);
    }
    for layout in [ListLayout::Flat, ListLayout::Interleaved] {
        assert_eq!(ListLayout::from(cuvsIvfPqListLayout::from(layout)), layout);
    }
}

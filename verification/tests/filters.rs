use cuvs::dlpack::{DLDataType, DLDataTypeCode, DLDevice, DLDeviceType, DLTensorView};
use cuvs::ffi::cuvsFilterType;
use cuvs::neighbors::filters::{prepare_filter, Bitmap, Bitset, Filter, FilterError, FilterKind, SearchFilter};
use cuvs::torch::{tensor_view, Device, Kind, TorchTensor};

fn words(kind: Kind, device: Device, size: &[i64]) -> TorchTensor {
    TorchTensor { data_ptr: 0x100, device, kind, size: size.to_vec(), stride: vec![1; size.len()], is_contiguous: true }
}

fn bitset() -> DLTensorView<'static> {
    tensor_view(&words(Kind::Int, Device::Cuda(0), &[1])).ok().unwrap()
}

fn vector(device_type: DLDeviceType, dtype: DLDataType, strides: Option<&[i64]>) -> DLTensorView<'static> {
    DLTensorView::from_raw_parts(0x100, DLDevice { device_type, device_id: 0 }, &[8], strides, dtype).ok().unwrap()
}

const U32: DLDataType = DLDataType { code: 1, bits: 32, lanes: 1 };

#[test]
fn filter_retags_i32_metadata_at_construction() {
    let filter = Filter::<Bitset>::new(bitset()).ok().unwrap();

    let dtype = filter.to_c().inner.dl_tensor.dtype;
    assert_eq!(dtype.code, DLDataTypeCode::kDLUInt.as_u8());
    assert_eq!(dtype.bits, 32);
    assert_eq!(dtype.lanes, 1);
}

#[test]
fn search_filter_to_c_produces_retagged_managed_tensor() {
    let filter = SearchFilter::Bitset(Filter::<Bitset>::new(bitset()).ok().unwrap());
    let managed = filter.to_c();

    assert_eq!(managed.inner.dl_tensor.dtype.code, DLDataTypeCode::kDLUInt.as_u8());
    assert_eq!(managed.inner.dl_tensor.data, 0x100);
    assert_eq!(filter.filter_type(), cuvsFilterType::BITSET);
}

#[test]
fn filter_kinds_name_their_c_types() {
    assert_eq!(Bitset::FILTER_TYPE, cuvsFilterType::BITSET);
    assert_eq!(Bitmap::FILTER_TYPE, cuvsFilterType::BITMAP);
    let filter = SearchFilter::Bitmap(Filter::<Bitmap>::new(bitset()).ok().unwrap());
    assert_eq!(filter.filter_type(), cuvsFilterType::BITMAP);
    assert!(filter.uses_bitmap());
}

#[test]
fn filter_needs_one_dimension() {
    let matrix = tensor_view(&words(Kind::Int, Device::Cuda(0), &[2, 2])).ok().unwrap();
    let err = Filter::<Bitset>::new(matrix).err().unwrap();
    assert!(matches!(err, FilterError::InvalidRank));
    assert_eq!(err.to_string(), "filter must be a 1-D tensor");
}

#[test]
fn filter_needs_device_memory() {
    let host = tensor_view(&words(Kind::Int, Device::Cpu, &[2])).ok().unwrap();
    let err = Filter::<Bitset>::new(host).err().unwrap();
    assert!(matches!(err, FilterError::InvalidDevice));
    assert_eq!(err.to_string(), "filter must use device-accessible memory");
    for device in [DLDeviceType::kDLCUDA, DLDeviceType::kDLCUDAHost, DLDeviceType::kDLCUDAManaged] {
        assert!(Filter::<Bitset>::new(vector(device, U32, None)).is_ok());
    }
    for device in [DLDeviceType::kDLROCM, DLDeviceType::kDLVulkan, DLDeviceType::kDLOneAPI] {
        assert!(Filter::<Bitset>::new(vector(device, U32, None)).is_err());
    }
}

#[test]
fn filter_needs_contiguous_words() {
    let err = Filter::<Bitset>::new(vector(DLDeviceType::kDLCUDA, U32, Some(&[2]))).err().unwrap();
    assert!(matches!(err, FilterError::NonContiguous));
    assert_eq!(err.to_string(), "filter must be contiguous");
}

#[test]
fn filter_needs_scalar_words() {
    let wrong = [
        DLDataType { code: 1, bits: 64, lanes: 1 },
        DLDataType { code: 1, bits: 32, lanes: 2 },
        DLDataType { code: 2, bits: 32, lanes: 1 },
    ];
    for dtype in wrong {
        let err = Filter::<Bitmap>::new(vector(DLDeviceType::kDLCUDA, dtype, None)).err().unwrap();
        assert!(matches!(err, FilterError::InvalidDType));
        assert_eq!(
            err.to_string(),
            "filter must use scalar 32-bit words (`u32` or reinterpretable `i32`)"
        );
    }
}

#[test]
fn filter_rank_is_refused_first_and_dtype_last() {
    let strange = DLDataType { code: 2, bits: 16, lanes: 4 };
    let err = Filter::<Bitset>::new(vector(DLDeviceType::kDLCPU, strange, Some(&[2]))).err().unwrap();
    assert!(matches!(err, FilterError::InvalidDevice));
    let err = Filter::<Bitset>::new(vector(DLDeviceType::kDLCUDA, strange, Some(&[2]))).err().unwrap();
    assert!(matches!(err, FilterError::NonContiguous));
}

#[test]
fn prepared_filter_carries_the_words() {
    let filter = SearchFilter::Bitmap(Filter::<Bitmap>::new(bitset()).ok().unwrap());
    let prepared = prepare_filter(Some(&filter));
    assert_eq!(prepared.type_, cuvsFilterType::BITMAP);
    assert_eq!(prepared.words.unwrap().inner.dl_tensor.data, 0x100);
    let none = prepare_filter(None);
    assert_eq!(none.type_, cuvsFilterType::NO_FILTER);
    assert!(none.words.is_none());
}

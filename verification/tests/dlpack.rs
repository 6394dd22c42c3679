use cuvs::array::{array_layout, array_view, array_view_mut};
use cuvs::binary::{Binary32, Binary64};
use cuvs::dims::INLINE_DIMS;
use cuvs::dlpack::{
    view_from_ffi, DLDataType, DLDataTypeCode, DLDevice, DLDeviceType, DLPackError, DLTensorView, DLTensorViewMut,
    DType, FilledTensor, IntoDlTensor, IntoDlTensorMut, ViewError,
};
use cuvs::error::LibraryError;
use cuvs::torch::{device_to_dl, kind_to_dl_dtype, tensor_view, tensor_view_mut, Device, Kind, TorchTensor};
use ndarray::Array2;

const CPU: DLDevice = DLDevice { device_type: DLDeviceType::kDLCPU, device_id: 0 };
const F32: DLDataType = DLDataType { code: 2, bits: 32, lanes: 1 };

fn filled<'a>(ndim: i32, shape: Option<&'a [i64]>, strides: Option<&'a [i64]>, byte_offset: u64) -> FilledTensor<'a> {
    FilledTensor { data: 0, device: CPU, ndim, dtype: F32, shape, strides, byte_offset, deleter: 0x99 }
}

#[test]
fn view_from_ffi_copies_metadata_before_running_deleter() {
    let viewed = {
        let shape = vec![2_i64, 3];
        let strides = vec![3_i64, 1];
        view_from_ffi(Ok(filled(2, Some(&shape), Some(&strides), 0)))
    };
    assert_eq!(viewed.deleter, Some(0x99));
    let view = viewed.outcome.ok().unwrap();

    assert_eq!(view.ndim(), 2);
    assert_eq!(view.shape(), &[2, 3]);
    assert_eq!(view.strides(), Some(&[3, 1][..]));
    assert_eq!(view.dtype().bits, 32);
    assert_eq!(view.device().device_type, DLDeviceType::kDLCPU);
}

#[test]
fn view_from_ffi_rejects_negative_ndim() {
    let viewed = view_from_ffi(Ok(filled(-1, None, None, 0)));
    let err = viewed.outcome.err().unwrap();
    assert!(err.to_string().contains("negative ndim"));
    assert_eq!(err.to_string(), "invalid DLPack metadata: negative ndim");
}

#[test]
fn view_from_ffi_rejects_null_shape_for_positive_rank() {
    let viewed = view_from_ffi(Ok(filled(1, None, None, 0)));
    let err = viewed.outcome.err().unwrap();
    assert!(err.to_string().contains("shape pointer is null"));
}

#[test]
fn view_from_ffi_rejects_nonzero_byte_offset() {
    let shape = vec![4_i64];
    let viewed = view_from_ffi(Ok(filled(1, Some(&shape), None, 4)));
    let err = viewed.outcome.err().unwrap();

    assert!(err.to_string().contains("byte_offset"));
    assert_eq!(viewed.deleter, Some(0x99));
}

#[test]
fn view_from_ffi_of_a_failed_accessor_leaves_nothing_to_clean_up() {
    let viewed = view_from_ffi(Err(LibraryError("no graph".to_string())));
    assert_eq!(viewed.deleter, None);
    match viewed.outcome {
        Err(ViewError::Library(e)) => assert_eq!(e.to_string(), "no graph"),
        _ => panic!("another outcome"),
    }
}

#[test]
fn view_from_ffi_of_a_scalar_ignores_the_pointers() {
    let mut scalar = filled(0, None, None, 0);
    scalar.deleter = 0;
    let viewed = view_from_ffi(Ok(scalar));
    assert_eq!(viewed.deleter, None);
    let view = viewed.outcome.ok().unwrap();
    assert_eq!(view.ndim(), 0);
    assert!(view.strides().is_none());
}

#[test]
fn view_from_ffi_without_strides_is_contiguous() {
    let shape = vec![4_i64, 5];
    let view = view_from_ffi(Ok(filled(2, Some(&shape), None, 0))).outcome.ok().unwrap();
    assert_eq!(view.shape(), &[4, 5]);
    assert!(view.strides().is_none());
}

#[test]
fn handed_over_tensor_comes_back() {
    let view = DLTensorView::from_raw_parts(0x40, CPU, &[2, 3, 4, 5], Some(&[60, 20, 5, 1]), F32).ok().unwrap();
    let managed = view.to_c();
    let tensor = managed.inner.dl_tensor;
    let back = view_from_ffi(Ok(FilledTensor {
        data: tensor.data,
        device: tensor.device,
        ndim: tensor.ndim,
        dtype: tensor.dtype,
        shape: Some(tensor.shape),
        strides: tensor.strides,
        byte_offset: tensor.byte_offset,
        deleter: managed.inner.deleter,
    }));
    assert_eq!(back.deleter, None);
    let back = back.outcome.ok().unwrap();
    assert_eq!(back.data(), 0x40);
    assert_eq!(back.shape(), view.shape());
    assert_eq!(back.strides(), view.strides());
    assert_eq!(back.dtype(), view.dtype());
    assert_eq!(back.device(), view.device());
}

#[test]
fn dimensions_survive_inline_and_on_the_heap() {
    for rank in 0..2 * INLINE_DIMS {
        let shape: Vec<i64> = (0..rank as i64).map(|i| 7 * i + 1).collect();
        let strides: Vec<i64> = (0..rank as i64).map(|i| -3 * i).collect();
        let view = DLTensorView::from_raw_parts(8, CPU, &shape, Some(&strides), F32).ok().unwrap();
        assert_eq!(view.ndim(), rank);
        assert_eq!(view.shape(), &shape[..]);
        assert_eq!(view.strides(), Some(&strides[..]));
        let copy = (&view).into_dl_tensor().ok().unwrap();
        assert_eq!(copy.shape(), &shape[..]);
        assert_eq!(copy.strides(), Some(&strides[..]));
    }
}

#[test]
fn strides_must_match_the_rank() {
    let err = DLTensorView::from_raw_parts(8, CPU, &[2, 3], Some(&[1]), F32).err().unwrap();
    assert_eq!(err.to_string(), "strides length 1 does not match tensor rank 2");
    let err = DLTensorViewMut::from_raw_parts(8, CPU, &[2], Some(&[1, 2, 3]), F32).err().unwrap();
    assert_eq!(err.to_string(), "strides length 3 does not match tensor rank 1");
}

#[test]
fn element_types_have_their_descriptions() {
    let scalar = |code: DLDataTypeCode, bits: u8| DLDataType { code: code.as_u8(), bits, lanes: 1 };
    assert_eq!(Binary32::dl_dtype(), scalar(DLDataTypeCode::kDLFloat, 32));
    assert_eq!(Binary64::dl_dtype(), scalar(DLDataTypeCode::kDLFloat, 64));
    assert_eq!(i32::dl_dtype(), scalar(DLDataTypeCode::kDLInt, 32));
    assert_eq!(i64::dl_dtype(), scalar(DLDataTypeCode::kDLInt, 64));
    assert_eq!(u32::dl_dtype(), scalar(DLDataTypeCode::kDLUInt, 32));
    assert_eq!(u64::dl_dtype(), scalar(DLDataTypeCode::kDLUInt, 64));
    assert_eq!(u8::dl_dtype(), scalar(DLDataTypeCode::kDLUInt, 8));
    assert_eq!(i8::dl_dtype(), scalar(DLDataTypeCode::kDLInt, 8));
    assert_eq!(u16::dl_dtype(), scalar(DLDataTypeCode::kDLUInt, 16));
    assert_eq!(i16::dl_dtype(), scalar(DLDataTypeCode::kDLInt, 16));
}

fn torch(size: &[i64], stride: &[i64], kind: Kind, device: Device, is_contiguous: bool) -> TorchTensor {
    TorchTensor { data_ptr: 0x7f00, device, kind, size: size.to_vec(), stride: stride.to_vec(), is_contiguous }
}

#[test]
fn torch_f32_shape_device_and_dtype() {
    let tensor = torch(&[100, 128], &[128, 1], Kind::Float, Device::Cpu, true);
    let dl = tensor_view(&tensor).ok().unwrap();

    assert_eq!(dl.shape().len(), 2);
    assert_eq!(dl.shape()[..], [100, 128]);
    assert!(dl.strides().is_none());

    let managed = dl.to_c();
    assert_eq!(managed.inner.dl_tensor.device.device_type, DLDeviceType::kDLCPU);
    assert_eq!(managed.inner.dl_tensor.device.device_id, 0);

    assert_eq!(dl.dtype().code, DLDataTypeCode::kDLFloat.as_u8());
    assert_eq!(dl.dtype().bits, 32);
    assert_eq!(dl.dtype().lanes, 1);
}

#[test]
fn torch_transposed_cpu_tensor_has_strides() {
    let transposed = torch(&[20, 10], &[1, 20], Kind::Float, Device::Cpu, false);
    let dl = tensor_view(&transposed).ok().unwrap();

    assert_eq!(dl.shape()[..], [20, 10]);
    let strides = dl.strides().unwrap();
    assert_eq!(strides[..], [1, 20]);
}

#[test]
fn torch_bool_dtype_maps_to_dl_bool() {
    let tensor = torch(&[2, 2], &[2, 1], Kind::Bool, Device::Cpu, true);
    let dl = tensor_view(&tensor).ok().unwrap();

    assert_eq!(dl.dtype().code, DLDataTypeCode::kDLBool.as_u8());
    assert_eq!(dl.dtype().bits, 8);
    assert_eq!(dl.dtype().lanes, 1);
}

#[test]
fn torch_to_c_produces_valid_cpu_tensor() {
    let tensor = torch(&[10, 20], &[20, 1], Kind::Float, Device::Cpu, true);
    let dl = tensor_view(&tensor).ok().unwrap();
    let managed = dl.to_c();

    assert_eq!(managed.inner.dl_tensor.ndim, 2);
    assert_ne!(managed.inner.dl_tensor.data, 0);
    assert!(managed.inner.dl_tensor.strides.is_none());
    assert_eq!(managed.inner.dl_tensor.shape[0], 10);
    assert_eq!(managed.inner.dl_tensor.shape[1], 20);
    assert_eq!(managed.inner.dl_tensor.byte_offset, 0);
    assert_eq!(managed.inner.manager_ctx, 0);
    assert_eq!(managed.inner.deleter, 0);
}

#[test]
fn torch_mut_view_from_tensor() {
    let tensor = torch(&[8, 16], &[16, 1], Kind::Float, Device::Cpu, true);
    let dl = tensor_view_mut(&tensor).ok().unwrap();

    assert_eq!(dl.shape()[..], [8, 16]);
    assert!(dl.strides().is_none());

    let managed = dl.to_c();
    assert_eq!(managed.inner.dl_tensor.ndim, 2);
    assert_ne!(managed.inner.dl_tensor.data, 0);
    assert_eq!(managed.inner.dl_tensor.shape.len(), 2);
}

#[test]
fn torch_kinds_map_to_dl_types() {
    let cases = [
        (Kind::Float, DLDataTypeCode::kDLFloat, 32),
        (Kind::Double, DLDataTypeCode::kDLFloat, 64),
        (Kind::Half, DLDataTypeCode::kDLFloat, 16),
        (Kind::Int, DLDataTypeCode::kDLInt, 32),
        (Kind::Int64, DLDataTypeCode::kDLInt, 64),
        (Kind::Int8, DLDataTypeCode::kDLInt, 8),
        (Kind::Int16, DLDataTypeCode::kDLInt, 16),
        (Kind::Uint8, DLDataTypeCode::kDLUInt, 8),
        (Kind::BFloat16, DLDataTypeCode::kDLBfloat, 16),
        (Kind::Bool, DLDataTypeCode::kDLBool, 8),
    ];
    for (kind, code, bits) in cases {
        let dtype = kind_to_dl_dtype(kind).ok().unwrap();
        assert_eq!(dtype, DLDataType { code: code.as_u8(), bits, lanes: 1 });
    }
}

#[test]
fn torch_kinds_without_a_dl_type_are_named() {
    for kind in [
        Kind::ComplexHalf,
        Kind::ComplexFloat,
        Kind::ComplexDouble,
        Kind::QInt8,
        Kind::QUInt8,
        Kind::QInt32,
        Kind::Float8e5m2,
        Kind::Float8e4m3fn,
        Kind::Float8e5m2fnuz,
        Kind::Float8e4m3fnuz,
    ] {
        let err = kind_to_dl_dtype(kind).err().unwrap();
        assert_eq!(err.to_string(), format!("unsupported tensor dtype: {kind:?}"));
    }
}

#[test]
fn torch_devices_map_to_dl_devices() {
    assert_eq!(device_to_dl(Device::Cpu).ok().unwrap(), CPU);
    assert_eq!(
        device_to_dl(Device::Cuda(3)).ok().unwrap(),
        DLDevice { device_type: DLDeviceType::kDLCUDA, device_id: 3 }
    );
    let err = device_to_dl(Device::Mps).err().unwrap();
    assert_eq!(err.to_string(), "unsupported tensor device: Mps");
    let err = device_to_dl(Device::Vulkan).err().unwrap();
    assert_eq!(err.to_string(), "unsupported tensor device: Vulkan");
}

#[test]
fn torch_device_is_refused_before_the_kind() {
    let tensor = torch(&[2], &[1], Kind::QInt8, Device::Mps, true);
    assert!(matches!(tensor_view(&tensor), Err(DLPackError::UnsupportedDevice(_))));
    assert!(matches!(tensor_view_mut(&tensor), Err(DLPackError::UnsupportedDevice(_))));
}

#[test]
fn ndarray_f32_shape_and_dtype() {
    let arr = Array2::<f32>::zeros((100, 128)).into_dyn();
    let dl = array_view::<f32, Binary32>(&arr).ok().unwrap();

    assert_eq!(dl.shape().len(), 2);
    assert_eq!(dl.shape()[..], [100, 128]);

    assert_eq!(dl.dtype().code, DLDataTypeCode::kDLFloat.as_u8());
    assert_eq!(dl.dtype().bits, 32);
    assert_eq!(dl.dtype().lanes, 1);
}

#[test]
fn ndarray_contiguous_has_no_strides() {
    let arr = Array2::<f32>::zeros((10, 20)).into_dyn();
    let dl = array_view::<f32, Binary32>(&arr).ok().unwrap();
    assert!(dl.strides().is_none());
}

#[test]
fn ndarray_transposed_has_strides() {
    let arr = Array2::<f32>::zeros((10, 20)).into_dyn();
    let transposed = arr.t();
    let dl = array_view::<f32, Binary32>(&transposed).ok().unwrap();

    assert_eq!(dl.shape()[..], [20, 10]);
    let strides = dl.strides().unwrap();
    assert_eq!(strides[..], [1, 20]);
}

#[test]
fn ndarray_data_ptr_is_non_null() {
    let arr = Array2::<f64>::zeros((4, 4)).into_dyn();
    let dl = array_view::<f64, Binary64>(&arr).ok().unwrap();
    assert_ne!(dl.data(), 0);
    assert_eq!(dl.data(), arr.as_ptr() as usize);
}

#[test]
fn ndarray_device_is_cpu() {
    let arr = Array2::<f32>::zeros((2, 2)).into_dyn();
    let dl = array_view::<f32, Binary32>(&arr).ok().unwrap();
    assert_eq!(dl.device().device_type, DLDeviceType::kDLCPU);
    assert_eq!(dl.device().device_id, 0);
}

#[test]
fn ndarray_byte_offset_is_zero() {
    let arr = Array2::<f32>::zeros((2, 2)).into_dyn();
    let dl = array_view::<f32, Binary32>(&arr).ok().unwrap();
    let managed = dl.to_c();
    assert_eq!(managed.inner.dl_tensor.byte_offset, 0);
}

#[test]
fn to_c_produces_valid_tensor() {
    let arr = Array2::<f32>::zeros((10, 20)).into_dyn();
    let dl = array_view::<f32, Binary32>(&arr).ok().unwrap();
    let managed = dl.to_c();

    assert_eq!(managed.inner.dl_tensor.ndim, 2);
    assert!(managed.inner.dl_tensor.strides.is_none());
    assert_eq!(managed.inner.dl_tensor.shape[0], 10);
    assert_eq!(managed.inner.dl_tensor.shape[1], 20);
    assert_eq!(managed.inner.dl_tensor.dtype.bits, 32);
    assert_eq!(managed.inner.manager_ctx, 0);
    assert_eq!(managed.inner.deleter, 0);
}

#[test]
fn ndarray_mut_view_requires_mut_ref() {
    let mut arr = Array2::<f32>::zeros((10, 20)).into_dyn();
    let address = arr.as_ptr() as usize;
    let dl = array_view_mut::<f32, Binary32>(&mut arr).ok().unwrap();

    assert_eq!(dl.shape()[..], [10, 20]);
    assert!(dl.strides().is_none());

    let managed = dl.to_c();
    assert_eq!(managed.inner.dl_tensor.ndim, 2);
    assert_ne!(managed.inner.dl_tensor.data, 0);
    assert_eq!(managed.inner.dl_tensor.data, address);
    assert_eq!(managed.inner.dl_tensor.shape.len(), 2);
}

#[test]
fn ndarray_mut_view_coerces_to_read_only_view_ref() {
    let mut arr = Array2::<f32>::zeros((4, 5)).into_dyn();
    let dl = array_view_mut::<f32, Binary32>(&mut arr).ok().unwrap();

    let read_only: &DLTensorView<'_> = &dl;
    assert_eq!(read_only.shape(), &[4, 5]);
}

#[test]
fn borrowed_mut_view_can_convert_into_read_only_view() {
    let mut arr = Array2::<f32>::zeros((6, 7)).into_dyn();
    let dl = array_view_mut::<f32, Binary32>(&mut arr).ok().unwrap();

    let read_only = (&dl).into_dl_tensor().ok().unwrap();
    assert_eq!(read_only.shape(), &[6, 7]);
    let taken = DLTensorView::from(dl);
    assert_eq!(taken.shape(), &[6, 7]);
}

#[test]
fn ndarray_of_integers_converts_by_itself() {
    let mut arr = Array2::<i32>::zeros((3, 4)).into_dyn();
    let view = (&*arr).into_dl_tensor().ok().unwrap();
    assert_eq!(view.dtype(), i32::dl_dtype());
    assert_eq!(view.shape(), &[3, 4]);
    let writable = (&mut *arr).into_dl_tensor_mut().ok().unwrap();
    assert_eq!(writable.dtype(), i32::dl_dtype());
    let again = writable.into_dl_tensor_mut().ok().unwrap();
    assert_eq!(again.shape(), &[3, 4]);
}

#[test]
fn ndarray_layout_is_standard_where_steps_do_not_matter() {
    let mut arr = Array2::<u8>::zeros((5, 1)).into_dyn();
    arr.invert_axis(ndarray::Axis(1));
    let (shape, strides) = array_layout(&arr);
    assert_eq!(shape, vec![5, 1]);
    assert!(strides.is_none());

    let mut arr = Array2::<u8>::zeros((5, 4)).into_dyn();
    arr.invert_axis(ndarray::Axis(1));
    let (shape, strides) = array_layout(&arr);
    assert_eq!(shape, vec![5, 4]);
    assert_eq!(strides, Some(vec![4, -1]));

    let empty = Array2::<u8>::zeros((0, 4)).into_dyn();
    assert!(array_layout(&empty).1.is_none());
}

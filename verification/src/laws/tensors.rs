//! What a C function is told of a tensor.

use vstd::prelude::*;

use crate::binary::{Binary32, Binary64};
use crate::dlpack::{
    DLDataType, DLDataTypeCode, DLDevice, DLDeviceType, DLPackError, DLTensorView, DLTensorViewMut, DType,
    FilledTensor, IntoDlTensor, ManagedTensorRef, ViewError, Viewed,
};
use crate::error::LibraryError;
use crate::ffi::{cuvsError_t, cuvsFilterType};
use crate::neighbors::filters::{Bitmap, Bitset, Filter, FilterError, SearchFilter};
use crate::path::{CPath, NulError};
use crate::torch::{Device, Kind, TorchTensor};

verus! {

/// The element types are described by class, width and one lane: class zero is
/// that of signed integers, one of unsigned integers, two of floating-point
/// numbers.
pub proof fn element_types_are_described(dtype: DLDataType)
    ensures
        call_ensures(<Binary32 as DType>::dl_dtype, (), dtype) ==> dtype == (DLDataType { code: 2, bits: 32, lanes: 1 }),
        <Binary32 as DType>::dtype() == (DLDataType { code: 2, bits: 32, lanes: 1 }),
        call_ensures(<Binary64 as DType>::dl_dtype, (), dtype) ==> dtype == (DLDataType { code: 2, bits: 64, lanes: 1 }),
        <Binary64 as DType>::dtype() == (DLDataType { code: 2, bits: 64, lanes: 1 }),
        call_ensures(<i32 as DType>::dl_dtype, (), dtype) ==> dtype == (DLDataType { code: 0, bits: 32, lanes: 1 }),
        <i32 as DType>::dtype() == (DLDataType { code: 0, bits: 32, lanes: 1 }),
        call_ensures(<i64 as DType>::dl_dtype, (), dtype) ==> dtype == (DLDataType { code: 0, bits: 64, lanes: 1 }),
        <i64 as DType>::dtype() == (DLDataType { code: 0, bits: 64, lanes: 1 }),
        call_ensures(<u32 as DType>::dl_dtype, (), dtype) ==> dtype == (DLDataType { code: 1, bits: 32, lanes: 1 }),
        <u32 as DType>::dtype() == (DLDataType { code: 1, bits: 32, lanes: 1 }),
        call_ensures(<u64 as DType>::dl_dtype, (), dtype) ==> dtype == (DLDataType { code: 1, bits: 64, lanes: 1 }),
        <u64 as DType>::dtype() == (DLDataType { code: 1, bits: 64, lanes: 1 }),
        call_ensures(<u8 as DType>::dl_dtype, (), dtype) ==> dtype == (DLDataType { code: 1, bits: 8, lanes: 1 }),
        <u8 as DType>::dtype() == (DLDataType { code: 1, bits: 8, lanes: 1 }),
        call_ensures(<i8 as DType>::dl_dtype, (), dtype) ==> dtype == (DLDataType { code: 0, bits: 8, lanes: 1 }),
        <i8 as DType>::dtype() == (DLDataType { code: 0, bits: 8, lanes: 1 }),
        call_ensures(<u16 as DType>::dl_dtype, (), dtype) ==> dtype == (DLDataType { code: 1, bits: 16, lanes: 1 }),
        <u16 as DType>::dtype() == (DLDataType { code: 1, bits: 16, lanes: 1 }),
        call_ensures(<i16 as DType>::dl_dtype, (), dtype) ==> dtype == (DLDataType { code: 0, bits: 16, lanes: 1 }),
        <i16 as DType>::dtype() == (DLDataType { code: 0, bits: 16, lanes: 1 }),
{
}

/// The classes of element types have the numbers that DLPack gives them.
pub proof fn element_classes_are_numbered(class: DLDataTypeCode, number: u8)
    requires
        call_ensures(DLDataTypeCode::as_u8, (class,), number),
    ensures
        class is kDLInt <==> number == 0,
        class is kDLUInt <==> number == 1,
        class is kDLFloat <==> number == 2,
        class is kDLOpaqueHandle <==> number == 3,
        class is kDLBfloat <==> number == 4,
        class is kDLComplex <==> number == 5,
        class is kDLBool <==> number == 6,
{
}

/// A view tells what it was made from: of the address, device, element type,
/// extents and strides, each is reported as it was given.
pub proof fn views_report_their_parts<'a>(
    data: usize,
    device: DLDevice,
    shape: &[i64],
    strides: Option<&[i64]>,
    dtype: DLDataType,
    view: DLTensorView<'a>,
)
    requires
        call_ensures(DLTensorView::from_raw_parts, (data, device, shape, strides, dtype), Ok(view)),
    ensures
        forall|r: usize| #[trigger] call_ensures(DLTensorView::data, (&view,), r) ==> r == data,
        forall|r: usize| #[trigger] call_ensures(DLTensorView::ndim, (&view,), r) ==> r == shape@.len(),
        forall|r: &[i64]| #[trigger] call_ensures(DLTensorView::shape, (&view,), r) ==> r@ == shape@,
        forall|r: Option<&[i64]>| #[trigger]
            call_ensures(DLTensorView::strides, (&view,), r) ==> (r is Some <==> strides is Some) && (r is Some ==> r->0@
                == strides->0@),
        forall|r: DLDataType| #[trigger] call_ensures(DLTensorView::dtype, (&view,), r) ==> r == dtype,
        forall|r: DLDevice| #[trigger] call_ensures(DLTensorView::device, (&view,), r) ==> r == device,
        forall|r: ManagedTensorRef<'_>| #[trigger]
            call_ensures(DLTensorView::to_c, (&view,), r) ==> {
                let tensor = r.inner.dl_tensor;
                &&& tensor.data == data && tensor.device == device && tensor.dtype == dtype
                &&& tensor.shape@ == shape@ && tensor.ndim == shape@.len() as i32
                &&& (tensor.strides is Some <==> strides is Some) && (strides is Some ==> tensor.strides->0@
                    == strides->0@)
                &&& tensor.byte_offset == 0 && r.inner.manager_ctx == 0 && r.inner.deleter == 0
            },
{
}

/// A view is made of every tensor that has no strides or one for each extent;
/// otherwise both counts are reported.
pub proof fn views_need_a_stride_per_extent<'a>(
    data: usize,
    device: DLDevice,
    shape: &[i64],
    strides: Option<&[i64]>,
    dtype: DLDataType,
)
    ensures
        forall|r: Result<DLTensorView<'a>, DLPackError>| #[trigger]
            call_ensures(DLTensorView::from_raw_parts, (data, device, shape, strides, dtype), r) ==> {
                &&& r is Ok <==> (strides matches Some(s) ==> s@.len() == shape@.len())
                &&& r is Err ==> (r->Err_0 matches DLPackError::StridesLenMismatch { ndim, strides: n } && ndim
                    == shape@.len() && n == strides->0@.len())
            },
        forall|r: Result<DLTensorViewMut<'a>, DLPackError>| #[trigger]
            call_ensures(DLTensorViewMut::from_raw_parts, (data, device, shape, strides, dtype), r) ==> {
                &&& r is Ok <==> (strides matches Some(s) ==> s@.len() == shape@.len())
                &&& r is Err ==> (r->Err_0 matches DLPackError::StridesLenMismatch { ndim, strides: n } && ndim
                    == shape@.len() && n == strides->0@.len())
                &&& r matches Ok(view) ==> view@.data == data && view@.device == device && view@.dtype == dtype
                    && view@.shape == shape@ && (view@.strides is Some <==> strides is Some) && (strides is Some
                    ==> view@.strides->0 == strides->0@)
            },
{
}

/// Reading a writable view, taken or borrowed, gives the same tensor, and so
/// does reading a borrowed view.
pub proof fn conversions_keep_the_tensor<'a>(view: DLTensorView<'a>, writable: DLTensorViewMut<'a>)
    ensures
        forall|r: DLTensorView<'a>| #[trigger] call_ensures(DLTensorViewMut::into_view, (writable,), r) ==> r@ == writable@,
        forall|r: &DLTensorView<'a>| #[trigger] call_ensures(DLTensorViewMut::as_view, (&writable,), r) ==> r@ == writable@,
        forall|r: Result<DLTensorView<'a>, DLPackError>| #[trigger]
            view.converts(r) ==> r == Ok::<DLTensorView<'a>, DLPackError>(view),
        forall|r: Result<DLTensorView<'a>, DLPackError>| #[trigger]
            (&view).converts(r) ==> (r matches Ok(v) && v@ == view@),
        forall|r: Result<DLTensorView<'a>, DLPackError>| #[trigger]
            writable.converts(r) ==> (r matches Ok(v) && v@ == writable@),
        forall|r: Result<DLTensorView<'a>, DLPackError>| #[trigger]
            (&writable).converts(r) ==> (r matches Ok(v) && v@ == writable@),
{
}

/// A tensor that the C library filled in comes out with what it says of itself,
/// and its deleter is to be run; after a failed call neither happens.
pub proof fn filled_tensors_come_out<'a, 'b>(
    filled: Result<FilledTensor<'b>, LibraryError>,
    viewed: Viewed<'a>,
)
    requires
        filled matches Ok(tensor) ==> tensor.well_formed(),
        call_ensures(crate::dlpack::view_from_ffi, (filled,), viewed),
    ensures
        filled matches Err(e) ==> viewed.deleter is None && (viewed.outcome matches Err(ViewError::Library(f)) && f == e),
        filled matches Ok(tensor) ==> {
            let usable = tensor.ndim >= 0 && tensor.byte_offset == 0 && (tensor.ndim > 0 ==> tensor.shape is Some);
            &&& tensor.deleter != 0 ==> viewed.deleter == Some(tensor.deleter)
            &&& tensor.deleter == 0 ==> viewed.deleter is None
            &&& viewed.outcome is Ok <==> usable
            &&& viewed.outcome matches Ok(view) ==> {
                &&& view@.data == tensor.data && view@.device == tensor.device && view@.dtype == tensor.dtype
                &&& view@.shape.len() == tensor.ndim
                &&& tensor.ndim > 0 ==> view@.shape == tensor.shape->0@
                &&& tensor.ndim > 0 ==> (view@.strides is Some <==> tensor.strides is Some)
                &&& tensor.ndim > 0 && tensor.strides is Some ==> view@.strides->0 == tensor.strides->0@
                &&& tensor.ndim == 0 ==> view@.strides is None
            }
            &&& tensor.ndim < 0 ==> (viewed.outcome matches Err(ViewError::DLPack(DLPackError::InvalidMetadata(text)))
                && text@ == "negative ndim"@)
            &&& tensor.ndim >= 0 && tensor.byte_offset != 0 ==> (viewed.outcome matches Err(
                ViewError::DLPack(DLPackError::InvalidMetadata(text)),
            ) && text@ == "non-zero byte_offset is not supported"@)
            &&& tensor.ndim > 0 && tensor.byte_offset == 0 && tensor.shape is None ==> (viewed.outcome matches Err(
                ViewError::DLPack(DLPackError::InvalidMetadata(text)),
            ) && text@ == "shape pointer is null"@)
        },
{
}

/// Filter words are a vector in memory that a device reads, without strides, of
/// 32-bit integers with one lane; they come out as unsigned ones and are
/// otherwise the tensor that was given. The rank is looked at first, then the
/// memory, then the strides, then the element type.
pub proof fn filter_words_are_checked<'a>(view: DLTensorView<'a>)
    ensures
        forall|r: Result<Filter<'a, Bitset>, FilterError>| #[trigger]
            call_ensures(Filter::<'a, Bitset>::from_view, (view,), r) ==> words_verdict(view, r),
        forall|r: Result<Filter<'a, Bitmap>, FilterError>| #[trigger]
            call_ensures(Filter::<'a, Bitmap>::from_view, (view,), r) ==> words_verdict(view, r),
{
}

/// How a tensor is judged as filter words.
pub open spec fn words_verdict<'a, K: crate::neighbors::filters::FilterKind>(
    view: DLTensorView<'a>,
    r: Result<Filter<'a, K>, FilterError>,
) -> bool {
    let meta = view@;
    let memory = meta.device.device_type;
    let rank = meta.shape.len() == 1;
    let readable = memory == DLDeviceType::kDLCUDA || memory == DLDeviceType::kDLCUDAHost || memory
        == DLDeviceType::kDLCUDAManaged;
    let packed = meta.strides is None;
    let words = (meta.dtype.code == 0 || meta.dtype.code == 1) && meta.dtype.bits == 32 && meta.dtype.lanes == 1;
    &&& r is Ok <==> rank && readable && packed && words
    &&& !rank ==> (r matches Err(e) && e is InvalidRank)
    &&& rank && !readable ==> (r matches Err(e) && e is InvalidDevice)
    &&& rank && readable && !packed ==> (r matches Err(e) && e is NonContiguous)
    &&& rank && readable && packed && !words ==> (r matches Err(e) && e is InvalidDType)
    &&& r matches Ok(filter) ==> {
        &&& filter@.data == meta.data && filter@.device == meta.device
        &&& filter@.shape == meta.shape && filter@.strides is None
        &&& filter@.dtype == (DLDataType { code: 1, bits: 32, lanes: 1 })
    }
}

/// A filter goes to the C library as its own words, read as its own kind; no
/// filter goes as none.
pub proof fn filters_are_handed_over<'a>(filter: &'a SearchFilter<'a>)
    ensures
        forall|r: crate::call::cuvsFilter<'a>| #[trigger]
            call_ensures(crate::neighbors::filters::prepare_filter, (Some(filter),), r) ==> {
                &&& filter is Bitset <==> r.type_ == cuvsFilterType::BITSET
                &&& filter is Bitmap <==> r.type_ == cuvsFilterType::BITMAP
                &&& r.words is Some
                &&& r.words->0.inner.dl_tensor.data == filter@.data
                &&& r.words->0.inner.dl_tensor.device == filter@.device
                &&& r.words->0.inner.dl_tensor.shape@ == filter@.shape
                &&& r.words->0.inner.dl_tensor.strides is None
                &&& r.words->0.inner.dl_tensor.dtype == (DLDataType { code: 1, bits: 32, lanes: 1 })
            },
        forall|r: crate::call::cuvsFilter<'a>| #[trigger]
            call_ensures(crate::neighbors::filters::prepare_filter, (None,), r) ==> r.type_ == cuvsFilterType::NO_FILTER
                && r.words is None,
        filter matches SearchFilter::Bitset(words) ==> filter@ == words@,
        filter matches SearchFilter::Bitmap(words) ==> filter@ == words@,
{
}

/// Torch kinds have the element type of the same class and width; the kinds
/// that DLPack has none for are refused.
pub proof fn torch_kinds_are_described(kind: Kind, r: Result<DLDataType, DLPackError>)
    requires
        call_ensures(crate::torch::kind_to_dl_dtype, (kind,), r),
    ensures
        kind is Float ==> r == Ok::<DLDataType, DLPackError>(DLDataType { code: 2, bits: 32, lanes: 1 }),
        kind is Double ==> r == Ok::<DLDataType, DLPackError>(DLDataType { code: 2, bits: 64, lanes: 1 }),
        kind is Half ==> r == Ok::<DLDataType, DLPackError>(DLDataType { code: 2, bits: 16, lanes: 1 }),
        kind is Int ==> r == Ok::<DLDataType, DLPackError>(DLDataType { code: 0, bits: 32, lanes: 1 }),
        kind is Int64 ==> r == Ok::<DLDataType, DLPackError>(DLDataType { code: 0, bits: 64, lanes: 1 }),
        kind is Int8 ==> r == Ok::<DLDataType, DLPackError>(DLDataType { code: 0, bits: 8, lanes: 1 }),
        kind is Int16 ==> r == Ok::<DLDataType, DLPackError>(DLDataType { code: 0, bits: 16, lanes: 1 }),
        kind is Uint8 ==> r == Ok::<DLDataType, DLPackError>(DLDataType { code: 1, bits: 8, lanes: 1 }),
        kind is BFloat16 ==> r == Ok::<DLDataType, DLPackError>(DLDataType { code: 4, bits: 16, lanes: 1 }),
        kind is Bool ==> r == Ok::<DLDataType, DLPackError>(DLDataType { code: 6, bits: 8, lanes: 1 }),
        kind is ComplexHalf ==> (r matches Err(DLPackError::UnsupportedDType(name)) && name@ == "ComplexHalf"@),
        kind is ComplexFloat ==> (r matches Err(DLPackError::UnsupportedDType(name)) && name@ == "ComplexFloat"@),
        kind is ComplexDouble ==> (r matches Err(DLPackError::UnsupportedDType(name)) && name@ == "ComplexDouble"@),
        kind is QInt8 ==> (r matches Err(DLPackError::UnsupportedDType(name)) && name@ == "QInt8"@),
        kind is QUInt8 ==> (r matches Err(DLPackError::UnsupportedDType(name)) && name@ == "QUInt8"@),
        kind is QInt32 ==> (r matches Err(DLPackError::UnsupportedDType(name)) && name@ == "QInt32"@),
        kind is Float8e5m2 ==> (r matches Err(DLPackError::UnsupportedDType(name)) && name@ == "Float8e5m2"@),
        kind is Float8e4m3fn ==> (r matches Err(DLPackError::UnsupportedDType(name)) && name@ == "Float8e4m3fn"@),
        kind is Float8e5m2fnuz ==> (r matches Err(DLPackError::UnsupportedDType(name)) && name@ == "Float8e5m2fnuz"@),
        kind is Float8e4m3fnuz ==> (r matches Err(DLPackError::UnsupportedDType(name)) && name@ == "Float8e4m3fnuz"@),
{
}

/// Host memory and CUDA devices have a description, the latter with their
/// number; other torch devices are refused by name.
pub proof fn torch_devices_are_described(device: Device, r: Result<DLDevice, DLPackError>)
    requires
        call_ensures(crate::torch::device_to_dl, (device,), r),
    ensures
        device is Cpu ==> (r matches Ok(d) && d.device_type == DLDeviceType::kDLCPU && d.device_id == 0),
        device matches Device::Cuda(id) ==> (r matches Ok(d) && d.device_type == DLDeviceType::kDLCUDA && d.device_id
            == id as i32),
        device is Mps ==> (r matches Err(DLPackError::UnsupportedDevice(name)) && name@ == "Mps"@),
        device is Vulkan ==> (r matches Err(DLPackError::UnsupportedDevice(name)) && name@ == "Vulkan"@),
{
}

/// A view of a torch tensor has its address, its extents and, unless it is
/// contiguous, its strides, with the device and element type that torch's have;
/// it is made wherever these have one and the strides match the extents.
pub proof fn torch_tensors_are_viewed<'a>(tensor: &TorchTensor, device: DLDevice, dtype: DLDataType)
    requires
        call_ensures(crate::torch::device_to_dl, (tensor.device,), Ok(device)),
        call_ensures(crate::torch::kind_to_dl_dtype, (tensor.kind,), Ok(dtype)),
    ensures
        forall|r: Result<DLTensorView<'a>, DLPackError>| #[trigger]
            call_ensures(crate::torch::tensor_view, (tensor,), r) ==> {
                &&& r is Ok <==> tensor.is_contiguous || tensor.stride@.len() == tensor.size@.len()
                &&& r matches Ok(view) ==> {
                    &&& view@.data == tensor.data_ptr && view@.device == device && view@.dtype == dtype
                    &&& view@.shape == tensor.size@
                    &&& tensor.is_contiguous ==> view@.strides is None
                    &&& !tensor.is_contiguous ==> view@.strides == Some(tensor.stride@)
                }
            },
        forall|r: Result<DLTensorViewMut<'a>, DLPackError>| #[trigger]
            call_ensures(crate::torch::tensor_view_mut, (tensor,), r) ==> {
                &&& r is Ok <==> tensor.is_contiguous || tensor.stride@.len() == tensor.size@.len()
                &&& r matches Ok(view) ==> {
                    &&& view@.data == tensor.data_ptr && view@.device == device && view@.dtype == dtype
                    &&& view@.shape == tensor.size@
                    &&& tensor.is_contiguous ==> view@.strides is None
                    &&& !tensor.is_contiguous ==> view@.strides == Some(tensor.stride@)
                }
            },
{
}

/// A file name without zero bytes is handed over with a final zero; one with a
/// zero byte is refused, with the place of the first.
pub proof fn paths_are_terminated(name: &[u8], r: Result<CPath, NulError>)
    requires
        call_ensures(CPath::new, (name,), r),
    ensures
        r is Ok <==> !name@.contains(0u8),
        r matches Ok(path) ==> path@.len() == name@.len() + 1 && path@.drop_last() == name@ && path@.last() == 0,
        r matches Err(e) ==> e.bytes@ == name@ && 0 <= e.position < name@.len() && name@[e.position as int] == 0 && (forall|
            i: int,
        |
            0 <= i < e.position ==> name@[i] != 0),
{
    if r is Ok {
        assert(r->Ok_0@ == name@.push(0));
        assert(name@.push(0).drop_last() =~= name@);
    } else {
        let e = r->Err_0;
        assert(name@.contains(name@[e.position as int]));
        assert forall|i: int| 0 <= i < e.position implies name@[i] != 0 by {
            assert(name@.take(e.position as int)[i] == name@[i]);
        }
    }
}

/// A call that succeeded is no error whatever text is left; one that failed is
/// an error with the text that the library left, or with a fixed one where it
/// left none.
pub proof fn statuses_become_errors(status: cuvsError_t, text: Option<&[u8]>, r: Result<(), LibraryError>)
    requires
        call_ensures(crate::error::check_cuvs, (status, text), r),
    ensures
        status == cuvsError_t::CUVS_SUCCESS <==> r is Ok,
        r matches Err(e) ==> e.0@.len() > 0,
        r is Err && (text is None || text->0@.len() == 0) ==> r->Err_0.0@ == "unknown cuVS error"@,
        r is Err && text is Some && text->0@.len() > 0 ==> r->Err_0.0@ == crate::text::utf8_lossy(text->0@),
{
}

} // verus!

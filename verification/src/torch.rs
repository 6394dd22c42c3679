//! Views of torch tensors, by what torch reports of them.

use vstd::prelude::*;
use vstd::string::*;

use crate::dlpack::{
    DLDataType, DLDataTypeCode, DLDevice, DLDeviceType, DLPackError, DLTensorView, DLTensorViewMut, TensorMeta,
};
use crate::ffi::scalar_type;

verus! {

/// Element kinds of torch.
#[derive(Debug, Copy, Clone, PartialEq, Eq, Structural)]
pub enum Kind {
    Uint8,
    Int8,
    Int16,
    Int,
    Int64,
    Half,
    Float,
    Double,
    ComplexHalf,
    ComplexFloat,
    ComplexDouble,
    Bool,
    QInt8,
    QUInt8,
    QInt32,
    BFloat16,
    Float8e5m2,
    Float8e4m3fn,
    Float8e5m2fnuz,
    Float8e4m3fnuz,
}

/// Devices of torch.
#[derive(Debug, Copy, Clone, PartialEq, Eq, Structural)]
pub enum Device {
    Cpu,
    Cuda(usize),
    Mps,
    Vulkan,
}

/// What torch reports of a tensor.
#[derive(Debug)]
pub struct TorchTensor {
    pub data_ptr: usize,
    pub device: Device,
    pub kind: Kind,
    pub size: Vec<i64>,
    pub stride: Vec<i64>,
    pub is_contiguous: bool,
}

/// The DLPack element type of a kind, where it has one.
pub open spec fn dl_dtype_of(kind: Kind) -> Option<DLDataType> {
    match kind {
        Kind::Float => Some(crate::ffi::scalar(DLDataTypeCode::kDLFloat, 32)),
        Kind::Double => Some(crate::ffi::scalar(DLDataTypeCode::kDLFloat, 64)),
        Kind::Half => Some(crate::ffi::scalar(DLDataTypeCode::kDLFloat, 16)),
        Kind::Int => Some(crate::ffi::scalar(DLDataTypeCode::kDLInt, 32)),
        Kind::Int64 => Some(crate::ffi::scalar(DLDataTypeCode::kDLInt, 64)),
        Kind::Int8 => Some(crate::ffi::scalar(DLDataTypeCode::kDLInt, 8)),
        Kind::Int16 => Some(crate::ffi::scalar(DLDataTypeCode::kDLInt, 16)),
        Kind::Uint8 => Some(crate::ffi::scalar(DLDataTypeCode::kDLUInt, 8)),
        Kind::BFloat16 => Some(crate::ffi::scalar(DLDataTypeCode::kDLBfloat, 16)),
        Kind::Bool => Some(crate::ffi::scalar(DLDataTypeCode::kDLBool, 8)),
        _ => None,
    }
}

/// The name of a kind that has no DLPack element type.
pub open spec fn kind_name(kind: Kind) -> Seq<char> {
    match kind {
        Kind::ComplexHalf => "ComplexHalf"@,
        Kind::ComplexFloat => "ComplexFloat"@,
        Kind::ComplexDouble => "ComplexDouble"@,
        Kind::QInt8 => "QInt8"@,
        Kind::QUInt8 => "QUInt8"@,
        Kind::QInt32 => "QInt32"@,
        Kind::Float8e5m2 => "Float8e5m2"@,
        Kind::Float8e4m3fn => "Float8e4m3fn"@,
        Kind::Float8e5m2fnuz => "Float8e5m2fnuz"@,
        _ => "Float8e4m3fnuz"@,
    }
}

/// How the element type of a kind comes out.
pub open spec fn dtype_verdict(kind: Kind, r: Result<DLDataType, DLPackError>) -> bool {
    match dl_dtype_of(kind) {
        Some(dtype) => r == Ok::<DLDataType, DLPackError>(dtype),
        None => r matches Err(DLPackError::UnsupportedDType(name)) && name@ == kind_name(kind),
    }
}

pub fn kind_to_dl_dtype(kind: Kind) -> (r: Result<DLDataType, DLPackError>)
    ensures
        dtype_verdict(kind, r),
{
    match kind {
        Kind::Float => Ok(scalar_type(DLDataTypeCode::kDLFloat, 32)),
        Kind::Double => Ok(scalar_type(DLDataTypeCode::kDLFloat, 64)),
        Kind::Half => Ok(scalar_type(DLDataTypeCode::kDLFloat, 16)),
        Kind::Int => Ok(scalar_type(DLDataTypeCode::kDLInt, 32)),
        Kind::Int64 => Ok(scalar_type(DLDataTypeCode::kDLInt, 64)),
        Kind::Int8 => Ok(scalar_type(DLDataTypeCode::kDLInt, 8)),
        Kind::Int16 => Ok(scalar_type(DLDataTypeCode::kDLInt, 16)),
        Kind::Uint8 => Ok(scalar_type(DLDataTypeCode::kDLUInt, 8)),
        Kind::BFloat16 => Ok(scalar_type(DLDataTypeCode::kDLBfloat, 16)),
        Kind::Bool => Ok(scalar_type(DLDataTypeCode::kDLBool, 8)),
        Kind::ComplexHalf => Err(DLPackError::UnsupportedDType(String::from_str("ComplexHalf"))),
        Kind::ComplexFloat => Err(DLPackError::UnsupportedDType(String::from_str("ComplexFloat"))),
        Kind::ComplexDouble => Err(DLPackError::UnsupportedDType(String::from_str("ComplexDouble"))),
        Kind::QInt8 => Err(DLPackError::UnsupportedDType(String::from_str("QInt8"))),
        Kind::QUInt8 => Err(DLPackError::UnsupportedDType(String::from_str("QUInt8"))),
        Kind::QInt32 => Err(DLPackError::UnsupportedDType(String::from_str("QInt32"))),
        Kind::Float8e5m2 => Err(DLPackError::UnsupportedDType(String::from_str("Float8e5m2"))),
        Kind::Float8e4m3fn => Err(DLPackError::UnsupportedDType(String::from_str("Float8e4m3fn"))),
        Kind::Float8e5m2fnuz => Err(DLPackError::UnsupportedDType(String::from_str("Float8e5m2fnuz"))),
        Kind::Float8e4m3fnuz => Err(DLPackError::UnsupportedDType(String::from_str("Float8e4m3fnuz"))),
    }
}

/// How a device comes out: host memory and CUDA devices have a DLPack
/// description, other devices are named in the error.
pub open spec fn device_verdict(device: Device, r: Result<DLDevice, DLPackError>) -> bool {
    match device {
        Device::Cpu => r == Ok::<DLDevice, DLPackError>(DLDevice { device_type: DLDeviceType::kDLCPU, device_id: 0 }),
        Device::Cuda(id) => r == Ok::<DLDevice, DLPackError>(
            DLDevice { device_type: DLDeviceType::kDLCUDA, device_id: id as i32 },
        ),
        Device::Mps => r matches Err(DLPackError::UnsupportedDevice(name)) && name@ == "Mps"@,
        Device::Vulkan => r matches Err(DLPackError::UnsupportedDevice(name)) && name@ == "Vulkan"@,
    }
}

pub fn device_to_dl(device: Device) -> (r: Result<DLDevice, DLPackError>)
    ensures
        device_verdict(device, r),
{
    match device {
        Device::Cpu => Ok(DLDevice { device_type: DLDeviceType::kDLCPU, device_id: 0 }),
        Device::Cuda(id) => Ok(DLDevice { device_type: DLDeviceType::kDLCUDA, device_id: id as i32 }),
        Device::Mps => Err(DLPackError::UnsupportedDevice(String::from_str("Mps"))),
        Device::Vulkan => Err(DLPackError::UnsupportedDevice(String::from_str("Vulkan"))),
    }
}

impl TorchTensor {
    /// The strides as a view carries them: none for a contiguous tensor.
    pub open spec fn steps(self) -> Option<Seq<i64>> {
        if self.is_contiguous {
            None
        } else {
            Some(self.stride@)
        }
    }

    /// The metadata of a tensor on this device and of this element type.
    pub open spec fn meta(self, device: DLDevice, dtype: DLDataType) -> TensorMeta {
        TensorMeta { data: self.data_ptr, device, dtype, shape: self.size@, strides: self.steps() }
    }

    /// The results that a conversion may give. The device is looked at before
    /// the kind, and the strides last.
    pub open spec fn viewed(self, r: Result<TensorMeta, DLPackError>) -> bool {
        match r {
            Ok(meta) => exists|device: DLDevice, dtype: DLDataType|
                {
                    &&& #[trigger] device_verdict(self.device, Ok(device))
                    &&& #[trigger] dtype_verdict(self.kind, Ok(dtype))
                    &&& meta == self.meta(device, dtype)
                    &&& meta.well_formed()
                },
            Err(e) => {
                ||| device_verdict(self.device, Err(e))
                ||| {
                    &&& exists|device: DLDevice| device_verdict(self.device, Ok(device))
                    &&& dtype_verdict(self.kind, Err(e))
                }
                ||| {
                    &&& exists|device: DLDevice| device_verdict(self.device, Ok(device))
                    &&& dl_dtype_of(self.kind) is Some
                    &&& self.steps() is Some && self.stride@.len() != self.size@.len()
                    &&& e == (DLPackError::StridesLenMismatch {
                        ndim: self.size.len(),
                        strides: self.stride.len(),
                    })
                }
            },
        }
    }
}

/// The extents of a tensor, and its strides where it is not contiguous.
pub fn tensor_layout(tensor: &TorchTensor) -> (r: (&[i64], Option<&[i64]>))
    ensures
        r.0@ == tensor.size@,
        crate::dlpack::optional_entries(r.1) == tensor.steps(),
{
    let strides = if tensor.is_contiguous {
        None
    } else {
        Some(tensor.stride.as_slice())
    };
    (tensor.size.as_slice(), strides)
}

/// A view of a torch tensor. The tensor has to keep its storage during `'a`.
pub fn tensor_view<'a>(tensor: &TorchTensor) -> (r: Result<DLTensorView<'a>, DLPackError>)
    ensures
        tensor.viewed(
            match r {
                Ok(view) => Ok(view@),
                Err(e) => Err(e),
            },
        ),
{
    let (shape, strides) = tensor_layout(tensor);
    let device = match device_to_dl(tensor.device) {
        Ok(device) => device,
        Err(e) => return Err(e),
    };
    let dtype = match kind_to_dl_dtype(tensor.kind) {
        Ok(dtype) => dtype,
        Err(e) => return Err(e),
    };
    DLTensorView::from_raw_parts(tensor.data_ptr, device, shape, strides, dtype)
}

/// A writable view of a torch tensor. The tensor has to keep its storage, and
/// nothing else may write to it, during `'a`.
pub fn tensor_view_mut<'a>(tensor: &TorchTensor) -> (r: Result<DLTensorViewMut<'a>, DLPackError>)
    ensures
        tensor.viewed(
            match r {
                Ok(view) => Ok(view@),
                Err(e) => Err(e),
            },
        ),
{
    let (shape, strides) = tensor_layout(tensor);
    let device = match device_to_dl(tensor.device) {
        Ok(device) => device,
        Err(e) => return Err(e),
    };
    let dtype = match kind_to_dl_dtype(tensor.kind) {
        Ok(dtype) => dtype,
        Err(e) => return Err(e),
    };
    DLTensorViewMut::from_raw_parts(tensor.data_ptr, device, shape, strides, dtype)
}

} // verus!

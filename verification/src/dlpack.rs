//! DLPack tensor views: what a C function is told of a tensor.
//!
//! A view holds the address, device, element type, shape and optional strides
//! of storage that someone else owns. The crate takes tensors through
//! [`IntoDlTensor`] and [`IntoDlTensorMut`]; implement these for a tensor type
//! by calling [`DLTensorView::from_raw_parts`].

use std::marker::PhantomData;

use vstd::prelude::*;
use vstd::string::*;

use crate::binary::{Binary32, Binary64};
use crate::dims::TensorDims;
use crate::error::LibraryError;
use crate::ffi::scalar_type;
use crate::text::{push_decimal, with_text};

pub use crate::ffi::{DLDataType, DLDataTypeCode, DLDevice, DLDeviceType, DLManagedTensor, DLTensor};

verus! {

/// What a view says of a tensor.
pub struct TensorMeta {
    pub data: usize,
    pub device: DLDevice,
    pub dtype: DLDataType,
    pub shape: Seq<i64>,
    pub strides: Option<Seq<i64>>,
}

impl TensorMeta {
    /// Explicit strides give one step per dimension.
    pub open spec fn well_formed(self) -> bool {
        self.strides matches Some(s) ==> s.len() == self.shape.len()
    }
}

/// The entries of an optional dimension list.
pub open spec fn optional_entries(dims: Option<&[i64]>) -> Option<Seq<i64>> {
    match dims {
        Some(d) => Some(d@),
        None => None,
    }
}

/// Maps an element type to its DLPack description.
pub trait DType {
    spec fn dtype() -> DLDataType;

    fn dl_dtype() -> (r: DLDataType)
        ensures
            r == Self::dtype(),
    ;
}

impl DType for Binary32 {
    open spec fn dtype() -> DLDataType {
        crate::ffi::scalar(DLDataTypeCode::kDLFloat, 32)
    }

    fn dl_dtype() -> (r: DLDataType) {
        scalar_type(DLDataTypeCode::kDLFloat, 32)
    }
}

impl DType for Binary64 {
    open spec fn dtype() -> DLDataType {
        crate::ffi::scalar(DLDataTypeCode::kDLFloat, 64)
    }

    fn dl_dtype() -> (r: DLDataType) {
        scalar_type(DLDataTypeCode::kDLFloat, 64)
    }
}

impl DType for i32 {
    open spec fn dtype() -> DLDataType {
        crate::ffi::scalar(DLDataTypeCode::kDLInt, 32)
    }

    fn dl_dtype() -> (r: DLDataType) {
        scalar_type(DLDataTypeCode::kDLInt, 32)
    }
}

impl DType for i64 {
    open spec fn dtype() -> DLDataType {
        crate::ffi::scalar(DLDataTypeCode::kDLInt, 64)
    }

    fn dl_dtype() -> (r: DLDataType) {
        scalar_type(DLDataTypeCode::kDLInt, 64)
    }
}

impl DType for u32 {
    open spec fn dtype() -> DLDataType {
        crate::ffi::scalar(DLDataTypeCode::kDLUInt, 32)
    }

    fn dl_dtype() -> (r: DLDataType) {
        scalar_type(DLDataTypeCode::kDLUInt, 32)
    }
}

impl DType for u64 {
    open spec fn dtype() -> DLDataType {
        crate::ffi::scalar(DLDataTypeCode::kDLUInt, 64)
    }

    fn dl_dtype() -> (r: DLDataType) {
        scalar_type(DLDataTypeCode::kDLUInt, 64)
    }
}

impl DType for u8 {
    open spec fn dtype() -> DLDataType {
        crate::ffi::scalar(DLDataTypeCode::kDLUInt, 8)
    }

    fn dl_dtype() -> (r: DLDataType) {
        scalar_type(DLDataTypeCode::kDLUInt, 8)
    }
}

impl DType for i8 {
    open spec fn dtype() -> DLDataType {
        crate::ffi::scalar(DLDataTypeCode::kDLInt, 8)
    }

    fn dl_dtype() -> (r: DLDataType) {
        scalar_type(DLDataTypeCode::kDLInt, 8)
    }
}

impl DType for u16 {
    open spec fn dtype() -> DLDataType {
        crate::ffi::scalar(DLDataTypeCode::kDLUInt, 16)
    }

    fn dl_dtype() -> (r: DLDataType) {
        scalar_type(DLDataTypeCode::kDLUInt, 16)
    }
}

impl DType for i16 {
    open spec fn dtype() -> DLDataType {
        crate::ffi::scalar(DLDataTypeCode::kDLInt, 16)
    }

    fn dl_dtype() -> (r: DLDataType) {
        scalar_type(DLDataTypeCode::kDLInt, 16)
    }
}

/// Error when converting an external tensor to a DLPack view.
#[derive(Debug, Clone)]
#[non_exhaustive]
pub enum DLPackError {
    /// The tensor resides on a device that cuVS does not support.
    UnsupportedDevice(String),
    /// The adapter has no DLPack description of the element type.
    UnsupportedDType(String),
    /// The strides did not match the tensor rank.
    StridesLenMismatch { ndim: usize, strides: usize },
    /// The source reported metadata that no tensor has.
    InvalidMetadata(&'static str),
}

impl DLPackError {
    /// The message of the error.
    pub open spec fn message(self) -> Seq<char> {
        match self {
            DLPackError::UnsupportedDevice(device) => "unsupported tensor device: "@ + device@,
            DLPackError::UnsupportedDType(dtype) => "unsupported tensor dtype: "@ + dtype@,
            DLPackError::StridesLenMismatch { ndim, strides } => "strides length "@
                + crate::text::decimal(strides as nat) + " does not match tensor rank "@
                + crate::text::decimal(ndim as nat),
            DLPackError::InvalidMetadata(reason) => "invalid DLPack metadata: "@ + reason@,
        }
    }

    pub fn to_string(&self) -> (r: String)
        ensures
            r@ == self.message(),
    {
        match self {
            DLPackError::UnsupportedDevice(device) => with_text("unsupported tensor device: ", device.as_str()),
            DLPackError::UnsupportedDType(dtype) => with_text("unsupported tensor dtype: ", dtype.as_str()),
            DLPackError::StridesLenMismatch { ndim, strides } => {
                let mut out = String::from_str("strides length ");
                push_decimal(&mut out, *strides as u64);
                out.append(" does not match tensor rank ");
                push_decimal(&mut out, *ndim as u64);
                out
            },
            DLPackError::InvalidMetadata(reason) => with_text("invalid DLPack metadata: ", reason),
        }
    }
}

/// A read-only view of a tensor, for C parameters that are only read.
#[must_use]
#[derive(Debug)]
pub struct DLTensorView<'a> {
    data: usize,
    device: DLDevice,
    dtype: DLDataType,
    shape: TensorDims,
    strides: Option<TensorDims>,
    marker: PhantomData<&'a ()>,
}

impl<'a> View for DLTensorView<'a> {
    type V = TensorMeta;

    closed spec fn view(&self) -> TensorMeta {
        TensorMeta {
            data: self.data,
            device: self.device,
            dtype: self.dtype,
            shape: self.shape@,
            strides: match self.strides {
                Some(s) => Some(s@),
                None => None,
            },
        }
    }
}

/// The metadata of a tensor as given by its parts.
pub open spec fn described(
    data: usize,
    device: DLDevice,
    shape: &[i64],
    strides: Option<&[i64]>,
    dtype: DLDataType,
) -> TensorMeta {
    TensorMeta { data, device, dtype, shape: shape@, strides: optional_entries(strides) }
}

impl<'a> DLTensorView<'a> {
    #[verifier::type_invariant]
    spec fn aligned(self) -> bool {
        self@.well_formed()
    }

    /// Constructs a view from raw tensor metadata.
    ///
    /// The caller vouches that `data` is the address of initialized storage for
    /// the full extent that the other parts describe, and that the storage
    /// stays valid for `'a`. The only thing checked is that strides, where
    /// given, have one entry per dimension.
    pub fn from_raw_parts(
        data: usize,
        device: DLDevice,
        shape: &[i64],
        strides: Option<&[i64]>,
        dtype: DLDataType,
    ) -> (r: Result<DLTensorView<'a>, DLPackError>)
        ensures
            r is Ok <==> described(data, device, shape, strides, dtype).well_formed(),
            r matches Ok(view) ==> view@ == described(data, device, shape, strides, dtype),
            r matches Err(e) ==> e == (DLPackError::StridesLenMismatch {
                ndim: shape.len(),
                strides: strides->0.len(),
            }),
    {
        match strides {
            Some(s) => {
                if s.len() != shape.len() {
                    return Err(DLPackError::StridesLenMismatch { ndim: shape.len(), strides: s.len() });
                }
                Ok(
                    DLTensorView {
                        data,
                        device,
                        dtype,
                        shape: TensorDims::collect(shape),
                        strides: Some(TensorDims::collect(s)),
                        marker: PhantomData,
                    },
                )
            },
            None => Ok(
                DLTensorView {
                    data,
                    device,
                    dtype,
                    shape: TensorDims::collect(shape),
                    strides: None,
                    marker: PhantomData,
                },
            ),
        }
    }

    /// The C description of the tensor for one call. It borrows the dimension
    /// lists of the view.
    pub fn to_c(&self) -> (r: ManagedTensorRef<'_>)
        ensures
            r.describes(self@),
            self@.well_formed(),
    {
        proof {
            use_type_invariant(self);
        }
        let shape = self.shape.as_slice();
        ManagedTensorRef {
            inner: DLManagedTensor {
                dl_tensor: DLTensor {
                    data: self.data,
                    device: self.device,
                    ndim: shape.len() as i32,
                    dtype: self.dtype,
                    shape,
                    strides: self.strides(),
                    byte_offset: 0,
                },
                manager_ctx: 0,
                deleter: 0,
            },
        }
    }

    /// Address of the storage.
    pub fn data(&self) -> (r: usize)
        ensures
            r == self@.data,
    {
        self.data
    }

    /// Number of dimensions.
    pub fn ndim(&self) -> (r: usize)
        ensures
            r == self@.shape.len(),
    {
        self.shape.as_slice().len()
    }

    /// Extent of each dimension.
    pub fn shape(&self) -> (r: &[i64])
        ensures
            r@ == self@.shape,
    {
        self.shape.as_slice()
    }

    /// Strides, where the tensor is not C-contiguous and row-major.
    pub fn strides(&self) -> (r: Option<&[i64]>)
        ensures
            optional_entries(r) == self@.strides,
            self@.well_formed(),
    {
        proof {
            use_type_invariant(self);
        }
        match &self.strides {
            Some(s) => Some(s.as_slice()),
            None => None,
        }
    }

    /// Element type.
    pub fn dtype(&self) -> (r: DLDataType)
        ensures
            r == self@.dtype,
    {
        self.dtype
    }

    /// Relabels the element type, leaving the storage as it is.
    pub(crate) fn set_dtype(&mut self, dtype: DLDataType)
        ensures
            final(self)@ == (TensorMeta { dtype, ..old(self)@ }),
    {
        proof {
            use_type_invariant(&*self);
        }
        self.dtype = dtype;
    }

    /// Device on which the storage resides.
    pub fn device(&self) -> (r: DLDevice)
        ensures
            r == self@.device,
    {
        self.device
    }
}

/// The C description of a tensor, borrowed from its view.
#[derive(Debug)]
pub struct ManagedTensorRef<'a> {
    pub inner: DLManagedTensor<'a>,
}

impl<'a> ManagedTensorRef<'a> {
    /// The C structure says what the metadata says, claims no byte offset, and
    /// asks for no clean-up.
    pub open spec fn describes(self, meta: TensorMeta) -> bool {
        let tensor = self.inner.dl_tensor;
        &&& tensor.data == meta.data
        &&& tensor.device == meta.device
        &&& tensor.dtype == meta.dtype
        &&& tensor.shape@ == meta.shape
        &&& optional_entries(tensor.strides) == meta.strides
        &&& tensor.ndim == meta.shape.len() as i32
        &&& tensor.byte_offset == 0
        &&& self.inner.manager_ctx == 0
        &&& self.inner.deleter == 0
    }
}

/// A writable view of a tensor: a view that nothing else may write through.
#[must_use]
#[derive(Debug)]
pub struct DLTensorViewMut<'a> {
    base: DLTensorView<'a>,
    unique: PhantomData<&'a mut ()>,
}

impl<'a> View for DLTensorViewMut<'a> {
    type V = TensorMeta;

    closed spec fn view(&self) -> TensorMeta {
        self.base@
    }
}

impl<'a> DLTensorViewMut<'a> {
    /// Constructs a writable view from raw tensor metadata.
    ///
    /// In addition to what [`DLTensorView::from_raw_parts`] asks, the caller
    /// vouches that nothing else writes to the storage during `'a`.
    pub fn from_raw_parts(
        data: usize,
        device: DLDevice,
        shape: &[i64],
        strides: Option<&[i64]>,
        dtype: DLDataType,
    ) -> (r: Result<DLTensorViewMut<'a>, DLPackError>)
        ensures
            r is Ok <==> described(data, device, shape, strides, dtype).well_formed(),
            r matches Ok(view) ==> view@ == described(data, device, shape, strides, dtype),
            r matches Err(e) ==> e == (DLPackError::StridesLenMismatch {
                ndim: shape.len(),
                strides: strides->0.len(),
            }),
    {
        match DLTensorView::from_raw_parts(data, device, shape, strides, dtype) {
            Ok(base) => Ok(DLTensorViewMut { base, unique: PhantomData }),
            Err(e) => Err(e),
        }
    }

    /// The same tensor, read-only, for as long as the view is borrowed.
    pub fn as_view(&self) -> (r: &DLTensorView<'a>)
        ensures
            r@ == self@,
    {
        &self.base
    }

    /// The same tensor, read-only.
    pub fn into_view(self) -> (r: DLTensorView<'a>)
        ensures
            r@ == self@,
    {
        self.base
    }
}

/// Conversion of a tensor into a read-only view.
pub trait IntoDlTensor<'a>: Sized {
    /// The results that the conversion of this tensor may give: any, unless
    /// the tensor type says more.
    open spec fn converts(self, r: Result<DLTensorView<'a>, DLPackError>) -> bool {
        true
    }

    fn into_dl_tensor(self) -> (r: Result<DLTensorView<'a>, DLPackError>)
        ensures
            self.converts(r),
    ;
}

/// Conversion of a tensor into a writable view.
pub trait IntoDlTensorMut<'a>: Sized {
    /// The results that the conversion of this tensor may give: any, unless
    /// the tensor type says more.
    open spec fn converts_mut(self, r: Result<DLTensorViewMut<'a>, DLPackError>) -> bool {
        true
    }

    fn into_dl_tensor_mut(self) -> (r: Result<DLTensorViewMut<'a>, DLPackError>)
        ensures
            self.converts_mut(r),
    ;
}

/// The conversion of this tensor may succeed.
pub open spec fn admitted<'a, T: IntoDlTensor<'a>>(tensor: T) -> bool {
    exists|view: DLTensorView<'a>| tensor.converts(Ok(view))
}

/// The conversion of this tensor into a writable view may succeed.
pub open spec fn admitted_mut<'a, T: IntoDlTensorMut<'a>>(tensor: T) -> bool {
    exists|view: DLTensorViewMut<'a>| tensor.converts_mut(Ok(view))
}

/// The error may come out of converting one tensor to read and then two to
/// write, in this order; the first that fails decides.
pub open spec fn refused_search<'a, Q, N, D>(queries: Q, neighbors: N, distances: D, e: DLPackError) -> bool where
    Q: IntoDlTensor<'a>,
    N: IntoDlTensorMut<'a>,
    D: IntoDlTensorMut<'a>,
 {
    ||| queries.converts(Err(e))
    ||| admitted(queries) && neighbors.converts_mut(Err(e))
    ||| admitted(queries) && admitted_mut(neighbors) && distances.converts_mut(Err(e))
}

/// Converts the tensors of a search: one to read, then two to write.
pub fn search_tensors<'a, Q, N, D>(queries: Q, neighbors: N, distances: D) -> (r: Result<
    (DLTensorView<'a>, DLTensorViewMut<'a>, DLTensorViewMut<'a>),
    DLPackError,
>) where Q: IntoDlTensor<'a>, N: IntoDlTensorMut<'a>, D: IntoDlTensorMut<'a>
    ensures
        match r {
            Ok(views) => {
                &&& queries.converts(Ok(views.0))
                &&& neighbors.converts_mut(Ok(views.1))
                &&& distances.converts_mut(Ok(views.2))
            },
            Err(e) => refused_search(queries, neighbors, distances, e),
        },
{
    let queries = match queries.into_dl_tensor() {
        Ok(view) => view,
        Err(e) => return Err(e),
    };
    let neighbors = match neighbors.into_dl_tensor_mut() {
        Ok(view) => view,
        Err(e) => return Err(e),
    };
    let distances = match distances.into_dl_tensor_mut() {
        Ok(view) => view,
        Err(e) => return Err(e),
    };
    Ok((queries, neighbors, distances))
}

impl<'a> IntoDlTensor<'a> for DLTensorView<'a> {
    open spec fn converts(self, r: Result<DLTensorView<'a>, DLPackError>) -> bool {
        r == Ok::<DLTensorView<'a>, DLPackError>(self)
    }

    fn into_dl_tensor(self) -> (r: Result<DLTensorView<'a>, DLPackError>) {
        Ok(self)
    }
}

impl<'a> IntoDlTensor<'a> for DLTensorViewMut<'a> {
    open spec fn converts(self, r: Result<DLTensorView<'a>, DLPackError>) -> bool {
        r matches Ok(view) && view@ == self@
    }

    fn into_dl_tensor(self) -> (r: Result<DLTensorView<'a>, DLPackError>) {
        Ok(self.into_view())
    }
}

impl<'a> IntoDlTensorMut<'a> for DLTensorViewMut<'a> {
    open spec fn converts_mut(self, r: Result<DLTensorViewMut<'a>, DLPackError>) -> bool {
        r == Ok::<DLTensorViewMut<'a>, DLPackError>(self)
    }

    fn into_dl_tensor_mut(self) -> (r: Result<DLTensorViewMut<'a>, DLPackError>) {
        Ok(self)
    }
}

impl<'a, 'b> IntoDlTensor<'a> for &'b DLTensorView<'a> {
    open spec fn converts(self, r: Result<DLTensorView<'a>, DLPackError>) -> bool {
        r matches Ok(view) && view@ == self@
    }

    fn into_dl_tensor(self) -> (r: Result<DLTensorView<'a>, DLPackError>) {
        proof {
            use_type_invariant(self);
        }
        let shape = self.shape.duplicate();
        let strides = match &self.strides {
            Some(s) => Some(s.duplicate()),
            None => None,
        };
        Ok(
            DLTensorView {
                data: self.data,
                device: self.device,
                dtype: self.dtype,
                shape,
                strides,
                marker: PhantomData,
            },
        )
    }
}

impl<'a, 'b> IntoDlTensor<'a> for &'b DLTensorViewMut<'a> {
    open spec fn converts(self, r: Result<DLTensorView<'a>, DLPackError>) -> bool {
        r matches Ok(view) && view@ == self@
    }

    fn into_dl_tensor(self) -> (r: Result<DLTensorView<'a>, DLPackError>) {
        self.as_view().into_dl_tensor()
    }
}

impl<'a> vstd::std_specs::convert::FromSpecImpl<DLTensorViewMut<'a>> for DLTensorView<'a> {
    open spec fn obeys_from_spec() -> bool {
        true
    }

    closed spec fn from_spec(view: DLTensorViewMut<'a>) -> DLTensorView<'a> {
        view.base
    }
}

impl<'a> From<DLTensorViewMut<'a>> for DLTensorView<'a> {
    fn from(view: DLTensorViewMut<'a>) -> (r: DLTensorView<'a>)
        ensures
            r@ == view@,
    {
        view.base
    }
}

impl<'a> std::ops::Deref for DLTensorViewMut<'a> {
    type Target = DLTensorView<'a>;

    fn deref(&self) -> (r: &DLTensorView<'a>)
        ensures
            r@ == self@,
    {
        self.as_view()
    }
}

/// A tensor as a C accessor filled it in. A missing dimension list stands for
/// a null pointer, a zero `deleter` for an absent one.
#[derive(Debug)]
pub struct FilledTensor<'b> {
    pub data: usize,
    pub device: DLDevice,
    pub ndim: i32,
    pub dtype: DLDataType,
    pub shape: Option<&'b [i64]>,
    pub strides: Option<&'b [i64]>,
    pub byte_offset: u64,
    pub deleter: usize,
}

impl<'b> FilledTensor<'b> {
    /// A dimension list has the length that the rank announces.
    pub open spec fn well_formed(self) -> bool {
        self.ndim >= 0 ==> {
            &&& self.shape matches Some(s) ==> s@.len() == self.ndim
            &&& self.strides matches Some(s) ==> s@.len() == self.ndim
        }
    }

    /// Why no view can be made of the tensor, where none can.
    pub open spec fn defect(self) -> Option<Seq<char>> {
        if self.ndim < 0 {
            Some("negative ndim"@)
        } else if self.byte_offset != 0 {
            Some("non-zero byte_offset is not supported"@)
        } else if self.ndim > 0 && self.shape is None {
            Some("shape pointer is null"@)
        } else {
            None
        }
    }

    /// What the tensor says of itself; a tensor without dimensions has neither
    /// extents nor strides, whatever the pointers are.
    pub open spec fn meta(self) -> TensorMeta {
        TensorMeta {
            data: self.data,
            device: self.device,
            dtype: self.dtype,
            shape: if self.ndim == 0 {
                Seq::empty()
            } else {
                self.shape->0@
            },
            strides: if self.ndim == 0 {
                None
            } else {
                optional_entries(self.strides)
            },
        }
    }

    /// Copies the metadata into a view.
    fn copied<'a>(&self) -> (r: Result<DLTensorView<'a>, DLPackError>)
        requires
            self.well_formed(),
        ensures
            match self.defect() {
                None => r matches Ok(view) && view@ == self.meta(),
                Some(reason) => r matches Err(DLPackError::InvalidMetadata(text)) && text@ == reason,
            },
    {
        if self.ndim < 0 {
            return Err(DLPackError::InvalidMetadata("negative ndim"));
        }
        if self.byte_offset != 0 {
            return Err(DLPackError::InvalidMetadata("non-zero byte_offset is not supported"));
        }
        if self.ndim == 0 {
            let empty: [i64; 0] = [];
            let shape = vstd::array::array_as_slice(&empty);
            assert(shape@ =~= Seq::<i64>::empty());
            return DLTensorView::from_raw_parts(self.data, self.device, shape, None, self.dtype);
        }
        match self.shape {
            None => Err(DLPackError::InvalidMetadata("shape pointer is null")),
            Some(shape) => DLTensorView::from_raw_parts(self.data, self.device, shape, self.strides, self.dtype),
        }
    }
}

/// Error when reading a tensor out of the C library.
#[derive(Debug)]
pub enum ViewError {
    /// The accessor failed.
    Library(LibraryError),
    /// The accessor gave metadata that no tensor has.
    DLPack(DLPackError),
}

impl ViewError {
    /// The message of the error.
    pub open spec fn message(self) -> Seq<char> {
        match self {
            ViewError::Library(e) => e.0@,
            ViewError::DLPack(e) => e.message(),
        }
    }

    pub fn to_string(&self) -> (r: String)
        ensures
            r@ == self.message(),
    {
        match self {
            ViewError::Library(e) => e.to_string(),
            ViewError::DLPack(e) => e.to_string(),
        }
    }
}

/// What became of a C accessor's tensor: the view, and the deleter that is now
/// to be run, once, on the accessor's structure.
#[derive(Debug)]
pub struct Viewed<'a> {
    pub outcome: Result<DLTensorView<'a>, ViewError>,
    pub deleter: Option<usize>,
}

/// Takes the metadata out of a tensor that a C accessor filled in.
///
/// The view owns a copy of the dimensions, so that the structure can be
/// released before the view is used. A failed accessor leaves nothing to clean
/// up; after a successful one its deleter is run, even where the metadata are
/// refused.
pub fn view_from_ffi<'a, 'b>(filled: Result<FilledTensor<'b>, LibraryError>) -> (r: Viewed<'a>)
    requires
        filled matches Ok(tensor) ==> tensor.well_formed(),
    ensures
        match filled {
            Err(e) => r.outcome == Err::<DLTensorView<'a>, ViewError>(ViewError::Library(e)) && r.deleter is None,
            Ok(tensor) => {
                &&& r.deleter == if tensor.deleter == 0 {
                    None
                } else {
                    Some(tensor.deleter)
                }
                &&& match tensor.defect() {
                    None => r.outcome matches Ok(view) && view@ == tensor.meta(),
                    Some(reason) => r.outcome matches Err(ViewError::DLPack(DLPackError::InvalidMetadata(text)))
                        && text@ == reason,
                }
            },
        },
{
    match filled {
        Err(e) => Viewed { outcome: Err(ViewError::Library(e)), deleter: None },
        Ok(tensor) => {
            let outcome = match tensor.copied() {
                Ok(view) => Ok(view),
                Err(e) => Err(ViewError::DLPack(e)),
            };
            Viewed {
                outcome,
                deleter: if tensor.deleter == 0 {
                    None
                } else {
                    Some(tensor.deleter)
                },
            }
        },
    }
}

/// A tensor handed to the C library and filled in unchanged on its side comes
/// back as the same view, and there is nothing to clean up.
pub proof fn handed_over_tensor_comes_back<'a>(meta: TensorMeta, handed: ManagedTensorRef<'a>)
    requires
        meta.well_formed(),
        meta.shape.len() <= i32::MAX,
        meta.shape.len() == 0 ==> meta.strides is None,
        handed.describes(meta),
    ensures
        ({
            let tensor = handed.inner.dl_tensor;
            let filled = (FilledTensor {
                data: tensor.data,
                device: tensor.device,
                ndim: tensor.ndim,
                dtype: tensor.dtype,
                shape: Some(tensor.shape),
                strides: tensor.strides,
                byte_offset: tensor.byte_offset,
                deleter: handed.inner.deleter,
            });
            filled.well_formed() && filled.defect() is None && filled.meta() == meta && filled.deleter == 0
        }),
{
    assert(meta.shape.len() == 0 ==> meta.shape =~= Seq::empty());
}

} // verus!

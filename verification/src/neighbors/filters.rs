//! Shared filter payloads for nearest-neighbor search.

use std::marker::PhantomData;

use vstd::prelude::*;
use vstd::string::*;

use crate::call::cuvsFilter;
use crate::dlpack::{DLDataTypeCode, DLDeviceType, DLPackError, DLTensorView, IntoDlTensor, ManagedTensorRef, TensorMeta};
use crate::ffi::{cuvsFilterType, scalar_type};

verus! {

/// Error returned when constructing an invalid filter payload.
#[derive(Debug)]
#[non_exhaustive]
pub enum FilterError {
    /// The filter tensor must be a 1-D vector of packed 32-bit words.
    InvalidRank,
    /// The filter tensor must be in device-accessible memory.
    InvalidDevice,
    /// The filter tensor must use scalar (non-vectorized) 32-bit words.
    InvalidDType,
    /// The filter tensor must be contiguous (no strides).
    NonContiguous,
    /// The source tensor could not be converted to a DLPack view.
    Conversion(DLPackError),
}

impl FilterError {
    /// The message of the error.
    pub open spec fn message(self) -> Seq<char> {
        match self {
            FilterError::InvalidRank => "filter must be a 1-D tensor"@,
            FilterError::InvalidDevice => "filter must use device-accessible memory"@,
            FilterError::InvalidDType => "filter must use scalar 32-bit words (`u32` or reinterpretable `i32`)"@,
            FilterError::NonContiguous => "filter must be contiguous"@,
            FilterError::Conversion(e) => e.message(),
        }
    }

    pub fn to_string(&self) -> (r: String)
        ensures
            r@ == self.message(),
    {
        match self {
            FilterError::InvalidRank => String::from_str("filter must be a 1-D tensor"),
            FilterError::InvalidDevice => String::from_str("filter must use device-accessible memory"),
            FilterError::InvalidDType => String::from_str(
                "filter must use scalar 32-bit words (`u32` or reinterpretable `i32`)",
            ),
            FilterError::NonContiguous => String::from_str("filter must be contiguous"),
            FilterError::Conversion(e) => e.to_string(),
        }
    }
}

impl vstd::std_specs::convert::FromSpecImpl<DLPackError> for FilterError {
    open spec fn obeys_from_spec() -> bool {
        true
    }

    open spec fn from_spec(e: DLPackError) -> FilterError {
        FilterError::Conversion(e)
    }
}

impl From<DLPackError> for FilterError {
    fn from(e: DLPackError) -> (r: FilterError) {
        FilterError::Conversion(e)
    }
}

/// Marker for a row-level bitset filter.
#[derive(Debug)]
pub enum Bitset {
    /// One bit per dataset row.
    Rows,
}

/// Marker for a per-query bitmap filter.
#[derive(Debug)]
pub enum Bitmap {
    /// One bit per pair of a query and a dataset row.
    QueryRows,
}

/// Type-level mapping from a filter marker to the C filter type.
pub trait FilterKind {
    const FILTER_TYPE: cuvsFilterType;
}

impl FilterKind for Bitset {
    const FILTER_TYPE: cuvsFilterType = cuvsFilterType::BITSET;
}

impl FilterKind for Bitmap {
    const FILTER_TYPE: cuvsFilterType = cuvsFilterType::BITMAP;
}

/// The storage can be read by a device.
pub open spec fn device_accessible(device_type: DLDeviceType) -> bool {
    ||| device_type == DLDeviceType::kDLCUDA
    ||| device_type == DLDeviceType::kDLCUDAHost
    ||| device_type == DLDeviceType::kDLCUDAManaged
}

/// Why a tensor cannot serve as filter words, where it cannot.
pub open spec fn word_defect(meta: TensorMeta) -> Option<FilterError> {
    if meta.shape.len() != 1 {
        Some(FilterError::InvalidRank)
    } else if !device_accessible(meta.device.device_type) {
        Some(FilterError::InvalidDevice)
    } else if meta.strides is Some {
        Some(FilterError::NonContiguous)
    } else if meta.dtype != crate::ffi::scalar(DLDataTypeCode::kDLInt, 32) && meta.dtype != crate::ffi::scalar(
        DLDataTypeCode::kDLUInt,
        32,
    ) {
        Some(FilterError::InvalidDType)
    } else {
        None
    }
}

/// The tensor relabelled as a vector of unsigned 32-bit words.
pub open spec fn as_words(meta: TensorMeta) -> TensorMeta {
    TensorMeta { dtype: crate::ffi::scalar(DLDataTypeCode::kDLUInt, 32), ..meta }
}

/// Packed filter words that include or exclude dataset rows during search.
///
/// The kind says how the words are read:
/// - [`Filter<Bitset>`]: one bit per dataset row
/// - [`Filter<Bitmap>`]: one bit per pair of a query and a dataset row
///
/// The words are a device-accessible vector of `uint32`. A vector of `int32`
/// is accepted too, and relabelled.
#[derive(Debug)]
pub struct Filter<'a, K: FilterKind> {
    tensor: DLTensorView<'a>,
    kind: PhantomData<K>,
}

impl<'a, K: FilterKind> View for Filter<'a, K> {
    type V = TensorMeta;

    closed spec fn view(&self) -> TensorMeta {
        self.tensor@
    }
}

impl<'a, K: FilterKind> Filter<'a, K> {
    #[verifier::type_invariant]
    spec fn holds_words(self) -> bool {
        word_defect(self@) is None && as_words(self@) == self@
    }

    /// Makes a filter of a tensor.
    pub fn new<T>(filter_words: T) -> (r: Result<Filter<'a, K>, FilterError>) where T: IntoDlTensor<'a>
        ensures
            match r {
                Ok(filter) => exists|view: DLTensorView<'a>| #[trigger]
                    filter_words.converts(Ok(view)) && word_defect(view@) is None && filter@ == as_words(view@),
                Err(FilterError::Conversion(e)) => filter_words.converts(Err(e)),
                Err(e) => exists|view: DLTensorView<'a>| #[trigger]
                    filter_words.converts(Ok(view)) && word_defect(view@) == Some(e),
            },
    {
        match filter_words.into_dl_tensor() {
            Ok(tensor) => Filter::from_view(tensor),
            Err(e) => Err(FilterError::from(e)),
        }
    }

    /// Makes a filter of a tensor view.
    pub fn from_view(view: DLTensorView<'a>) -> (r: Result<Filter<'a, K>, FilterError>)
        ensures
            match word_defect(view@) {
                None => r matches Ok(filter) && filter@ == as_words(view@),
                Some(e) => r == Err::<Filter<'a, K>, FilterError>(e),
            },
    {
        let mut tensor = view;
        if tensor.ndim() != 1 {
            return Err(FilterError::InvalidRank);
        }
        let accessible = match tensor.device().device_type {
            DLDeviceType::kDLCUDA | DLDeviceType::kDLCUDAHost | DLDeviceType::kDLCUDAManaged => true,
            _ => false,
        };
        if !accessible {
            return Err(FilterError::InvalidDevice);
        }
        if tensor.strides().is_some() {
            return Err(FilterError::NonContiguous);
        }
        let dtype = tensor.dtype();
        let is_32_bit = dtype.bits == 32;
        let is_scalar = dtype.lanes == 1;
        let is_int = dtype.code == DLDataTypeCode::kDLInt.as_u8() || dtype.code == DLDataTypeCode::kDLUInt.as_u8();
        if !is_32_bit || !is_scalar || !is_int {
            return Err(FilterError::InvalidDType);
        }
        if dtype.code == DLDataTypeCode::kDLInt.as_u8() {
            tensor.set_dtype(scalar_type(DLDataTypeCode::kDLUInt, 32));
        }
        Ok(Filter { tensor, kind: PhantomData })
    }

    /// The C description of the words.
    pub fn to_c(&self) -> (r: ManagedTensorRef<'_>)
        ensures
            r.describes(self@),
            word_defect(self@) is None,
            as_words(self@) == self@,
    {
        proof {
            use_type_invariant(self);
        }
        self.tensor.to_c()
    }
}

/// Search filter options.
///
/// Support varies by algorithm:
/// - brute force: `Bitset` and `Bitmap`
/// - CAGRA: `Bitset`
/// - IVF-Flat: `Bitset`
#[derive(Debug)]
pub enum SearchFilter<'a> {
    /// Reuse one row-level bitset for every query.
    Bitset(Filter<'a, Bitset>),
    /// Use a per-query bitmap of allowed pairs of a query and a row.
    Bitmap(Filter<'a, Bitmap>),
}

impl<'a> View for SearchFilter<'a> {
    type V = TensorMeta;

    open spec fn view(&self) -> TensorMeta {
        match self {
            SearchFilter::Bitset(f) => f@,
            SearchFilter::Bitmap(f) => f@,
        }
    }
}

impl<'a> SearchFilter<'a> {
    /// How the C library reads the words.
    pub open spec fn reading(self) -> cuvsFilterType {
        match self {
            SearchFilter::Bitset(_) => cuvsFilterType::BITSET,
            SearchFilter::Bitmap(_) => cuvsFilterType::BITMAP,
        }
    }

    /// The C description of the words. It borrows the filter.
    pub fn to_c(&self) -> (r: ManagedTensorRef<'_>)
        ensures
            r.describes(self@),
            word_defect(self@) is None,
            as_words(self@) == self@,
    {
        match self {
            SearchFilter::Bitset(f) => f.to_c(),
            SearchFilter::Bitmap(f) => f.to_c(),
        }
    }

    pub fn filter_type(&self) -> (r: cuvsFilterType)
        ensures
            r == self.reading(),
    {
        match self {
            SearchFilter::Bitset(_) => Bitset::FILTER_TYPE,
            SearchFilter::Bitmap(_) => Bitmap::FILTER_TYPE,
        }
    }

    pub fn uses_bitmap(&self) -> (r: bool)
        ensures
            r == (self is Bitmap),
    {
        match self {
            SearchFilter::Bitset(_) => false,
            SearchFilter::Bitmap(_) => true,
        }
    }
}

/// A C filter hands over this search filter as a vector of unsigned 32-bit
/// words, or tells that there is none.
pub open spec fn carries(filter: cuvsFilter<'_>, source: Option<&SearchFilter<'_>>) -> bool {
    match source {
        Some(f) => {
            &&& filter.type_ == f.reading()
            &&& filter.words is Some
            &&& filter.words->0.describes(f@)
            &&& word_defect(f@) is None
            &&& as_words(f@) == f@
        },
        None => filter.type_ == cuvsFilterType::NO_FILTER && filter.words is None,
    }
}

/// The C filter of an optional search filter.
pub fn prepare_filter<'a>(filter: Option<&'a SearchFilter<'_>>) -> (r: cuvsFilter<'a>)
    ensures
        carries(r, filter),
{
    match filter {
        Some(f) => cuvsFilter { words: Some(f.to_c()), type_: f.filter_type() },
        None => cuvsFilter { words: None, type_: cuvsFilterType::NO_FILTER },
    }
}

/// A vector of `int32` and the same vector labelled `uint32` make the same
/// filter, and one that can be made of its own words again.
pub proof fn signed_words_are_words(meta: TensorMeta)
    requires
        meta.dtype == crate::ffi::scalar(DLDataTypeCode::kDLInt, 32),
    ensures
        word_defect(meta) == word_defect(as_words(meta)),
        as_words(as_words(meta)) == as_words(meta),
{
}

/// Only the element type is relabelled: the words stay where they are and as
/// many as they are.
pub proof fn relabelling_keeps_the_words(meta: TensorMeta)
    ensures
        as_words(meta).data == meta.data,
        as_words(meta).device == meta.device,
        as_words(meta).shape == meta.shape,
        as_words(meta).strides == meta.strides,
{
}

} // verus!

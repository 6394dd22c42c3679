//! Views of `ndarray` arrays.

use vstd::prelude::*;

use crate::binary::{Binary32, Binary64};
use crate::dlpack::{
    DLDevice, DLDeviceType, DLPackError, DLTensorView, DLTensorViewMut, DType, IntoDlTensor, IntoDlTensorMut, TensorMeta,
};

verus! {

#[verifier::external_type_specification]
#[verifier::external_body]
#[verifier::reject_recursive_types(A)]
#[verifier::reject_recursive_types(D)]
pub struct ExArrayRef<A, D>(ndarray::ArrayRef<A, D>);

#[verifier::external_type_specification]
#[verifier::external_body]
#[verifier::reject_recursive_types(I)]
pub struct ExDim<I: ?Sized>(ndarray::Dim<I>);

#[verifier::external_type_specification]
#[verifier::external_body]
pub struct ExIxDynImpl(ndarray::IxDynImpl);

/// `ArrayRef::shape`: the extents of an array.
///
/// Nothing is claimed of them; what else is said of an array refers to them.
#[verifier::external_body]
fn array_shape<A>(arr: &ndarray::ArrayRef<A, ndarray::IxDyn>) -> (r: Vec<usize>) {
    arr.shape().to_vec()
}

/// `ArrayRef::strides`: the step of each dimension, counted in elements.
///
/// Not proved here: there is one for each extent.
#[verifier::external_body]
fn array_strides<A>(arr: &ndarray::ArrayRef<A, ndarray::IxDyn>) -> (r: Vec<isize>)
    ensures
        forall|shape: Seq<usize>| #[trigger] has_shape(arr, shape) ==> r@.len() == shape.len(),
{
    arr.strides().to_vec()
}

/// `ArrayRef::is_standard_layout`: whether the elements lie in row-major order
/// without gaps.
///
/// Not proved here: it decides by the extents and strides of the array, as
/// `row_major` does.
#[verifier::external_body]
fn array_is_standard_layout<A>(arr: &ndarray::ArrayRef<A, ndarray::IxDyn>) -> (r: bool)
    ensures
        forall|shape: Seq<usize>, strides: Seq<isize>| #[trigger]
            has_shape(arr, shape) && #[trigger] has_strides(arr, strides) ==> r == row_major(shape, strides),
{
    arr.is_standard_layout()
}

/// `ArrayRef::as_ptr`, as an address.
///
/// Nothing is claimed of it; what else is said of an array refers to it.
#[verifier::external_body]
fn array_address<A>(arr: &ndarray::ArrayRef<A, ndarray::IxDyn>) -> (r: usize) {
    arr.as_ptr() as usize
}

/// `ArrayRef::as_mut_ptr`, as an address.
///
/// Not proved here: it is the address that `ArrayRef::as_ptr` reports, and
/// taking it leaves the array as it is.
#[verifier::external_body]
fn array_address_mut<A>(arr: &mut ndarray::ArrayRef<A, ndarray::IxDyn>) -> (r: usize)
    ensures
        has_address(&*old(arr), r),
        &*final(arr) == &*old(arr),
{
    arr.as_mut_ptr() as usize
}

/// The array reports these extents.
pub closed spec fn has_shape<A>(arr: &ndarray::ArrayRef<A, ndarray::IxDyn>, shape: Seq<usize>) -> bool {
    exists|v: Vec<usize>| #[trigger] call_ensures(array_shape::<A>, (arr,), v) && v@ == shape
}

/// The array reports these strides.
pub closed spec fn has_strides<A>(arr: &ndarray::ArrayRef<A, ndarray::IxDyn>, strides: Seq<isize>) -> bool {
    exists|v: Vec<isize>| #[trigger] call_ensures(array_strides::<A>, (arr,), v) && v@ == strides
}

/// The array reports that its first element lies at this address.
pub closed spec fn has_address<A>(arr: &ndarray::ArrayRef<A, ndarray::IxDyn>, address: usize) -> bool {
    call_ensures(array_address::<A>, (arr,), address)
}

/// What an array reported of its extents, strides and address holds of it
/// still; of its elements nothing is said.
pub open spec fn stays_in_place<A>(
    before: &ndarray::ArrayRef<A, ndarray::IxDyn>,
    after: &ndarray::ArrayRef<A, ndarray::IxDyn>,
) -> bool {
    &&& forall|shape: Seq<usize>| #[trigger] has_shape(before, shape) ==> has_shape(after, shape)
    &&& forall|strides: Seq<isize>| #[trigger] has_strides(before, strides) ==> has_strides(after, strides)
    &&& forall|address: usize| #[trigger] has_address(before, address) ==> has_address(after, address)
}

/// The number of elements that some extents span.
pub open spec fn span(shape: Seq<usize>) -> int
    decreases shape.len(),
{
    if shape.len() == 0 {
        1
    } else {
        shape.first() * span(shape.drop_first())
    }
}

/// The elements lie in row-major order without gaps: there are none, or each
/// dimension of more than one entry steps over all that the later ones span.
pub open spec fn row_major(shape: Seq<usize>, strides: Seq<isize>) -> bool {
    ||| exists|i: int| 0 <= i < shape.len() && shape[i] == 0
    ||| forall|i: int|
        0 <= i < shape.len() && #[trigger] shape[i] != 1 ==> strides[i] == span(shape.skip(i + 1))
}

/// The metadata describe an array in host memory by its extents, and by its
/// strides where its layout is not the standard one.
pub open spec fn describes_array(
    meta: TensorMeta,
    shape: Seq<usize>,
    strides: Seq<isize>,
    dtype: crate::dlpack::DLDataType,
) -> bool {
    &&& meta.device == (DLDevice { device_type: DLDeviceType::kDLCPU, device_id: 0 })
    &&& meta.dtype == dtype
    &&& meta.shape == shape.map_values(|d: usize| d as i64)
    &&& meta.strides == if row_major(shape, strides) {
        None
    } else {
        Some(strides.map_values(|s: isize| s as i64))
    }
}

/// The metadata are those of this array.
pub open spec fn array_meta<A>(
    arr: &ndarray::ArrayRef<A, ndarray::IxDyn>,
    meta: TensorMeta,
    dtype: crate::dlpack::DLDataType,
) -> bool {
    &&& has_address(arr, meta.data)
    &&& exists|shape: Seq<usize>, strides: Seq<isize>| #[trigger]
        has_shape(arr, shape) && #[trigger] has_strides(arr, strides) && shape.len() == strides.len()
            && describes_array(meta, shape, strides, dtype)
}

fn widen_extents(extents: &Vec<usize>) -> (r: Vec<i64>)
    ensures
        r@ == extents@.map_values(|d: usize| d as i64),
{
    let mut wide: Vec<i64> = Vec::new();
    let mut i: usize = 0;
    while i < extents.len()
        invariant
            i <= extents@.len(),
            wide@ == extents@.take(i as int).map_values(|d: usize| d as i64),
        decreases extents.len() - i,
    {
        wide.push(extents[i] as i64);
        i += 1;
        assert(wide@ =~= extents@.take(i as int).map_values(|d: usize| d as i64));
    }
    assert(extents@.take(extents@.len() as int) =~= extents@);
    wide
}

fn widen_steps(steps: &Vec<isize>) -> (r: Vec<i64>)
    ensures
        r@ == steps@.map_values(|s: isize| s as i64),
{
    let mut wide: Vec<i64> = Vec::new();
    let mut i: usize = 0;
    while i < steps.len()
        invariant
            i <= steps@.len(),
            wide@ == steps@.take(i as int).map_values(|s: isize| s as i64),
        decreases steps.len() - i,
    {
        wide.push(steps[i] as i64);
        i += 1;
        assert(wide@ =~= steps@.take(i as int).map_values(|s: isize| s as i64));
    }
    assert(steps@.take(steps@.len() as int) =~= steps@);
    wide
}

/// The extents of an array, and its strides where its layout is not the
/// standard one.
pub fn array_layout<A>(arr: &ndarray::ArrayRef<A, ndarray::IxDyn>) -> (r: (Vec<i64>, Option<Vec<i64>>))
    ensures
        exists|shape: Seq<usize>, strides: Seq<isize>|
            {
                &&& #[trigger] has_shape(arr, shape)
                &&& #[trigger] has_strides(arr, strides)
                &&& shape.len() == strides.len()
                &&& r.0@ == shape.map_values(|d: usize| d as i64)
                &&& match r.1 {
                    None => row_major(shape, strides),
                    Some(steps) => !row_major(shape, strides) && steps@ == strides.map_values(|s: isize| s as i64),
                }
            },
{
    let shape = array_shape(arr);
    let strides = array_strides(arr);
    assert(has_shape(arr, shape@));
    assert(has_strides(arr, strides@));
    let standard = array_is_standard_layout(arr);
    let wide = widen_extents(&shape);
    if standard {
        (wide, None)
    } else {
        (wide, Some(widen_steps(&strides)))
    }
}

/// A view of an array, with its elements labelled `T`.
fn labelled_view<'a, A, T: DType>(arr: &'a ndarray::ArrayRef<A, ndarray::IxDyn>) -> (r: Result<
    DLTensorView<'a>,
    DLPackError,
>)
    ensures
        r matches Ok(view) && array_meta(arr, view@, T::dtype()),
{
    let (shape, strides) = array_layout(arr);
    let device = DLDevice { device_type: DLDeviceType::kDLCPU, device_id: 0 };
    let steps = match &strides {
        Some(s) => Some(s.as_slice()),
        None => None,
    };
    let address: usize = array_address(arr);
    DLTensorView::from_raw_parts(address, device, shape.as_slice(), steps, T::dl_dtype())
}

/// A writable view of an array, with its elements labelled `T`.
fn labelled_view_mut<'a, A, T: DType>(arr: &'a mut ndarray::ArrayRef<A, ndarray::IxDyn>) -> (r: Result<
    DLTensorViewMut<'a>,
    DLPackError,
>)
    ensures
        stays_in_place(&*old(arr), &*final(arr)),
        r matches Ok(view) && array_meta(&*old(arr), view@, T::dtype()),
{
    let (shape, strides) = array_layout(&*arr);
    let device = DLDevice { device_type: DLDeviceType::kDLCPU, device_id: 0 };
    let steps = match &strides {
        Some(s) => Some(s.as_slice()),
        None => None,
    };
    let address: usize = array_address_mut(arr);
    DLTensorViewMut::from_raw_parts(address, device, shape.as_slice(), steps, T::dl_dtype())
}

/// What stands for a floating-point element type here: numbers held by their
/// bits.
pub trait FloatDType: DType {

}

impl FloatDType for Binary32 {

}

impl FloatDType for Binary64 {

}

/// A view of an array of floating-point elements.
///
/// `A` is the floating-point type whose bits `T` holds; the caller vouches that
/// it is. An array of any other elements is its own label and converts by
/// [`IntoDlTensor`].
pub fn array_view<'a, A, T: FloatDType>(arr: &'a ndarray::ArrayRef<A, ndarray::IxDyn>) -> (r: Result<
    DLTensorView<'a>,
    DLPackError,
>)
    ensures
        r matches Ok(view) && array_meta(arr, view@, T::dtype()),
{
    labelled_view::<A, T>(arr)
}

/// A writable view of an array of floating-point elements.
///
/// `A` is the floating-point type whose bits `T` holds; the caller vouches that
/// it is. An array of any other elements is its own label and converts by
/// [`IntoDlTensorMut`].
///
/// Writing through the view changes elements, never the layout.
pub fn array_view_mut<'a, A, T: FloatDType>(arr: &'a mut ndarray::ArrayRef<A, ndarray::IxDyn>) -> (r: Result<
    DLTensorViewMut<'a>,
    DLPackError,
>)
    ensures
        stays_in_place(&*old(arr), &*final(arr)),
        r matches Ok(view) && array_meta(&*old(arr), view@, T::dtype()),
{
    labelled_view_mut::<A, T>(arr)
}

impl<'a, A: DType> IntoDlTensor<'a> for &'a ndarray::ArrayRef<A, ndarray::IxDyn> {
    open spec fn converts(self, r: Result<DLTensorView<'a>, DLPackError>) -> bool {
        r matches Ok(view) && array_meta(self, view@, A::dtype())
    }

    fn into_dl_tensor(self) -> (r: Result<DLTensorView<'a>, DLPackError>) {
        labelled_view::<A, A>(self)
    }
}

impl<'a, A: DType> IntoDlTensorMut<'a> for &'a mut ndarray::ArrayRef<A, ndarray::IxDyn> {
    open spec fn converts_mut(self, r: Result<DLTensorViewMut<'a>, DLPackError>) -> bool {
        r matches Ok(view) && array_meta(&*self, view@, A::dtype())
    }

    fn into_dl_tensor_mut(self) -> (r: Result<DLTensorViewMut<'a>, DLPackError>) {
        labelled_view_mut::<A, A>(self)
    }
}

} // verus!

//! Layout of arrays.

use vstd::prelude::*;

use crate::array::{has_address, has_shape, has_strides, row_major, span};
use crate::dlpack::{DLDevice, DLDeviceType, DLPackError, DLTensorView, DType};

verus! {

/// A dimension steps by one where it is the last, and otherwise over all that
/// the next one spans.
pub open spec fn steps_over_the_next(shape: Seq<usize>, strides: Seq<isize>, i: int) -> bool {
    if i + 1 == shape.len() {
        strides[i] == 1
    } else {
        strides[i] == shape[i + 1] * strides[i + 1]
    }
}

/// Elements lie in row-major order without gaps where the last dimension steps
/// by one and each other one over all that the next spans. (Extents of one and
/// of zero do not tell, and are left out here.)
pub proof fn row_major_steps_multiply(shape: Seq<usize>, strides: Seq<isize>)
    requires
        shape.len() == strides.len(),
        forall|i: int| 0 <= i < shape.len() ==> shape[i] > 1,
    ensures
        row_major(shape, strides) <==> forall|i: int|
            0 <= i < shape.len() ==> #[trigger] steps_over_the_next(shape, strides, i),
{
    if row_major(shape, strides) {
        assert forall|i: int| 0 <= i < shape.len() implies #[trigger] steps_over_the_next(shape, strides, i) by {
            assert(shape[i] != 1);
            lemma_span(shape, i);
            if i + 1 < shape.len() {
                assert(shape[i + 1] != 1);
            }
        }
    }
    if forall|i: int| 0 <= i < shape.len() ==> #[trigger] steps_over_the_next(shape, strides, i) {
        assert forall|i: int| 0 <= i < shape.len() && #[trigger] shape[i] != 1 implies strides[i] == span(
            shape.skip(i + 1),
        ) by {
            lemma_chain(shape, strides, i);
        }
    }
}

proof fn lemma_span(shape: Seq<usize>, i: int)
    requires
        0 <= i < shape.len(),
    ensures
        i + 1 == shape.len() ==> span(shape.skip(i + 1)) == 1,
        i + 1 < shape.len() ==> span(shape.skip(i + 1)) == shape[i + 1] * span(shape.skip(i + 2)),
{
    if i + 1 < shape.len() {
        assert(shape.skip(i + 1).first() == shape[i + 1]);
        assert(shape.skip(i + 1).drop_first() =~= shape.skip(i + 2));
    }
}

proof fn lemma_chain(shape: Seq<usize>, strides: Seq<isize>, i: int)
    requires
        shape.len() == strides.len(),
        0 <= i < shape.len(),
        forall|k: int| 0 <= k < shape.len() ==> #[trigger] steps_over_the_next(shape, strides, k),
    ensures
        strides[i] == span(shape.skip(i + 1)),
    decreases shape.len() - i,
{
    lemma_span(shape, i);
    assert(steps_over_the_next(shape, strides, i));
    if i + 1 < shape.len() {
        lemma_chain(shape, strides, i + 1);
    }
}

/// An array without elements counts as laid out in row-major order.
pub proof fn empty_arrays_are_row_major(shape: Seq<usize>, strides: Seq<isize>, i: int)
    requires
        0 <= i < shape.len(),
        shape[i] == 0,
    ensures
        row_major(shape, strides),
{
}

/// A view of an array of integers shows host memory at the address of the array,
/// with its element type, its extents and, where the array is not laid out in
/// row-major order, its strides.
pub proof fn arrays_are_viewed_in_host_memory<'a, A: DType>(arr: &'a ndarray::ArrayRef<A, ndarray::IxDyn>)
    ensures
        forall|r: Result<DLTensorView<'a>, DLPackError>| #[trigger]
            crate::dlpack::IntoDlTensor::<'a>::converts(arr, r) ==> {
                &&& r is Ok
                &&& r->Ok_0@.device == (DLDevice { device_type: DLDeviceType::kDLCPU, device_id: 0 })
                &&& r->Ok_0@.dtype == A::dtype()
                &&& has_address(arr, r->Ok_0@.data)
                &&& exists|shape: Seq<usize>, strides: Seq<isize>| #[trigger]
                    has_shape(arr, shape) && #[trigger] has_strides(arr, strides) && shape.len() == strides.len()
                        && r->Ok_0@.shape.len() == shape.len() && (forall|i: int|
                        0 <= i < shape.len() ==> #[trigger] r->Ok_0@.shape[i] == shape[i] as i64) && (
                    row_major(shape, strides) ==> r->Ok_0@.strides is None) && (!row_major(shape, strides)
                        ==> r->Ok_0@.strides is Some && r->Ok_0@.strides->0.len() == strides.len() && (forall|i: int|
                        0 <= i < strides.len() ==> #[trigger] r->Ok_0@.strides->0[i] == strides[i] as i64))
            },
{
}

} // verus!

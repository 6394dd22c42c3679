//! Dimension lists that stay on the stack up to three dimensions.

use vstd::prelude::*;

verus! {

/// Number of dimensions stored inline before the list spills to the heap.
///
/// Most tensors here have one or two dimensions; precomputed IVF-PQ codebooks
/// have three.
pub const INLINE_DIMS: usize = 3;

/// The extents or the strides of a tensor, in a `tinyvec::TinyVec`.
#[derive(Debug)]
#[verifier::external_body]
pub struct TensorDims {
    dims: tinyvec::TinyVec<[i64; INLINE_DIMS]>,
}

/// The entries of a dimension list, in order.
pub uninterp spec fn entries(dims: TensorDims) -> Seq<i64>;

impl View for TensorDims {
    type V = Seq<i64>;

    open spec fn view(&self) -> Seq<i64> {
        entries(*self)
    }
}

impl TensorDims {
    /// `TinyVec::from_iter` on the entries of a slice.
    ///
    /// Not proved here: the list holds what the iterator yields, in its order,
    /// whether it fits inline or not.
    #[verifier::external_body]
    pub(crate) fn collect(source: &[i64]) -> (r: TensorDims)
        ensures
            entries(r) == source@,
    {
        TensorDims { dims: tinyvec::TinyVec::from_iter(source.iter().copied()) }
    }

    /// `TinyVec::as_slice`.
    ///
    /// Not proved here: the slice shows the entries of the list, in order.
    #[verifier::external_body]
    pub(crate) fn as_slice(&self) -> (r: &[i64])
        ensures
            r@ == entries(*self),
    {
        self.dims.as_slice()
    }

    /// `TinyVec::clone`.
    ///
    /// Not proved here: the copy has the entries of the list, in order.
    #[verifier::external_body]
    pub(crate) fn duplicate(&self) -> (r: TensorDims)
        ensures
            entries(r) == entries(*self),
    {
        TensorDims { dims: self.dims.clone() }
    }
}

} // verus!

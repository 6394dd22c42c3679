//! The IVF-PQ index.

use std::marker::PhantomData;

use vstd::prelude::*;
use vstd::string::*;

use crate::call::{Call, Figure, IndexKind, Inside, Work};
use crate::construction::Construction;
use crate::dlpack::{search_tensors, DLDataType, DLDataTypeCode, DLTensorView, DLTensorViewMut, IntoDlTensor, IntoDlTensorMut};
use crate::error::LibraryError;
use crate::ffi::scalar_type;
use crate::neighbors::dtype::{mismatch_text, push_dtype};
use crate::path::CPath;
use crate::resources::Resources;
use crate::text::{push_decimal, push_signed_decimal};

use super::params::{IndexParams, SearchParams};
use super::IvfPqError;

verus! {

/// An IVF-PQ approximate nearest neighbor index.
#[derive(Debug)]
pub struct Index {
    pub handle: usize,
}

/// An IVF-PQ index over precomputed tensors. The C library keeps references to
/// the tensors, which have to outlive the index.
#[derive(Debug)]
pub struct PrecomputedIndex<'a> {
    pub index: Index,
    pub owner: PhantomData<&'a ()>,
}

impl<'a> PrecomputedIndex<'a> {
    /// The index, once its making has ended. It lives no longer than the tensors
    /// that it was made from.
    pub fn finish(made: Construction<'a>) -> (r: Result<PrecomputedIndex<'a>, IvfPqError>)
        requires
            made is Done,
        ensures
            match made->outcome {
                Ok(handle) => r matches Ok(precomputed) && precomputed.index.handle == handle,
                Err(e) => r == Err::<PrecomputedIndex<'a>, IvfPqError>(IvfPqError::Library(e)),
            },
    {
        match Index::finish(made) {
            Ok(index) => Ok(PrecomputedIndex { index, owner: PhantomData }),
            Err(e) => Err(e),
        }
    }

    /// The call that destroys the index. It ends the index, so that there is
    /// one.
    pub fn teardown(self) -> (r: Call<'static>)
        ensures
            r == (Call::IndexDestroy { kind: IndexKind::IvfPq, index: self.index.handle }),
    {
        self.index.teardown()
    }
}

impl<'a> std::ops::Deref for PrecomputedIndex<'a> {
    type Target = Index;

    fn deref(&self) -> (r: &Index)
        ensures
            *r == self.index,
    {
        &self.index
    }
}

/// The index does not tell its element type.
pub open spec fn unknown(index_dtype: DLDataType) -> bool {
    index_dtype.code == 0 && index_dtype.bits == 0
}

/// The queries may go to the index: its element type is theirs, or not known.
pub open spec fn compatible(index_dtype: DLDataType, query_dtype: DLDataType) -> bool {
    unknown(index_dtype) || crate::neighbors::dtype::agrees(index_dtype, query_dtype)
}

/// Why the outputs of a transformation are refused, where they are.
pub open spec fn transform_violation(labels: DLDataType, dataset: DLDataType) -> Option<Seq<char>> {
    if !crate::neighbors::dtype::agrees(labels, crate::ffi::scalar(DLDataTypeCode::kDLUInt, 32)) {
        Some("output_labels must use uint32 dtype, got "@ + crate::neighbors::dtype::dtype_text(labels))
    } else if !crate::neighbors::dtype::agrees(dataset, crate::ffi::scalar(DLDataTypeCode::kDLUInt, 8)) {
        Some("output_dataset must use uint8 dtype, got "@ + crate::neighbors::dtype::dtype_text(dataset))
    } else {
        None
    }
}

/// The conversion of the outputs may give views that a transformation refuses,
/// for this reason.
pub open spec fn outputs_differ<'a, Labels, Out>(labels: Labels, dataset: Out, text: Seq<char>) -> bool where
    Labels: IntoDlTensorMut<'a>,
    Out: IntoDlTensorMut<'a>,
 {
    exists|l: DLTensorViewMut<'a>, o: DLTensorViewMut<'a>| #[trigger]
        labels.converts_mut(Ok(l)) && #[trigger] dataset.converts_mut(Ok(o)) && transform_violation(l@.dtype, o@.dtype)
            == Some(text)
}

/// The message on a label that names no list.
pub open spec fn label_message(n_lists: i64, label: u32) -> Seq<char> {
    "label must be < n_lists ("@ + crate::text::signed_decimal(n_lists as int) + "), got "@ + crate::text::decimal(
        label as nat,
    )
}

/// How a list is admitted, given what the C library answered when asked for
/// the number of lists.
pub open spec fn label_verdict(n_lists: Result<i64, LibraryError>, label: u32, r: Result<(), IvfPqError>) -> bool {
    match n_lists {
        Err(e) => r == Err::<(), IvfPqError>(IvfPqError::Library(e)),
        Ok(n) => if label < n {
            r is Ok
        } else {
            r matches Err(IvfPqError::Validation(text)) && text@ == label_message(n, label)
        },
    }
}

impl Index {
    /// Builds an index from a dataset tensor, which is copied.
    pub fn build<'a, D>(res: &Resources, params: &IndexParams, dataset: D) -> (r: Result<Construction<'a>, IvfPqError>) where
        D: IntoDlTensor<'a>,

        ensures
            match r {
                Ok(making) => {
                    &&& making matches Construction::Create { work: Work::IvfPqBuild { res: h, params: p, dataset: view } }
                    &&& h == res.handle
                    &&& p == params.handle
                    &&& dataset.converts(Ok(view))
                },
                Err(IvfPqError::DLPack(e)) => dataset.converts(Err(e)),
                Err(_) => false,
            },
    {
        let dataset = match dataset.into_dl_tensor() {
            Ok(view) => view,
            Err(e) => return Err(IvfPqError::from(e)),
        };
        Ok(Construction::Create { work: Work::IvfPqBuild { res: res.handle(), params: params.handle(), dataset } })
    }

    /// Builds an index over precomputed model tensors, which are not copied.
    ///
    /// The tensors must live on device memory, use `float32`, and have the
    /// extents:
    ///
    /// - `pq_centers`: `[pq_dim, pq_len, pq_book_size]` for codebooks per
    ///   subspace, or `[n_lists, pq_len, pq_book_size]` for codebooks per cluster
    /// - `centers_padded`: `[n_lists, dim_ext]`, where `dim_ext` is `dim + 1`
    ///   rounded up to a multiple of eight
    /// - `centers_rot`: `[n_lists, rot_dim]`, where `rot_dim = pq_len * pq_dim`
    /// - `rotation_matrix`: `[rot_dim, dim]`
    ///
    /// The index holds the trained model only; [`Index::extend`] adds vectors.
    pub fn build_precomputed<'a, P, CP, CR, RM>(
        res: &Resources,
        params: &IndexParams,
        dim: u32,
        pq_centers: P,
        centers_padded: CP,
        centers_rot: CR,
        rotation_matrix: RM,
    ) -> (r: Result<Construction<'a>, IvfPqError>) where
        P: IntoDlTensor<'a>,
        CP: IntoDlTensor<'a>,
        CR: IntoDlTensor<'a>,
        RM: IntoDlTensor<'a>,

        ensures
            match r {
                Ok(making) => {
                    &&& making matches Construction::Create {
                        work: Work::IvfPqBuildPrecomputed {
                            res: h,
                            params: p,
                            dim: n,
                            pq_centers: a,
                            centers_padded: b,
                            centers_rot: c,
                            rotation_matrix: d,
                        },
                    }
                    &&& h == res.handle
                    &&& p == params.handle
                    &&& n == dim
                    &&& pq_centers.converts(Ok(a))
                    &&& centers_padded.converts(Ok(b))
                    &&& centers_rot.converts(Ok(c))
                    &&& rotation_matrix.converts(Ok(d))
                },
                Err(IvfPqError::DLPack(e)) => {
                    ||| pq_centers.converts(Err(e))
                    ||| crate::dlpack::admitted(pq_centers) && centers_padded.converts(Err(e))
                    ||| crate::dlpack::admitted(pq_centers) && crate::dlpack::admitted(centers_padded)
                        && centers_rot.converts(Err(e))
                    ||| crate::dlpack::admitted(pq_centers) && crate::dlpack::admitted(centers_padded)
                        && crate::dlpack::admitted(centers_rot) && rotation_matrix.converts(Err(e))
                },
                Err(_) => false,
            },
    {
        let pq_centers = match pq_centers.into_dl_tensor() {
            Ok(view) => view,
            Err(e) => return Err(IvfPqError::from(e)),
        };
        let centers_padded = match centers_padded.into_dl_tensor() {
            Ok(view) => view,
            Err(e) => return Err(IvfPqError::from(e)),
        };
        let centers_rot = match centers_rot.into_dl_tensor() {
            Ok(view) => view,
            Err(e) => return Err(IvfPqError::from(e)),
        };
        let rotation_matrix = match rotation_matrix.into_dl_tensor() {
            Ok(view) => view,
            Err(e) => return Err(IvfPqError::from(e)),
        };
        Ok(
            Construction::Create {
                work: Work::IvfPqBuildPrecomputed {
                    res: res.handle(),
                    params: params.handle(),
                    dim,
                    pq_centers,
                    centers_padded,
                    centers_rot,
                    rotation_matrix,
                },
            },
        )
    }

    /// Loads an index from a file that [`Index::serialize`] wrote.
    pub fn deserialize(res: &Resources, path: &[u8]) -> (r: Result<Construction<'static>, IvfPqError>)
        ensures
            match r {
                Ok(making) => {
                    &&& making matches Construction::Create { work: Work::IvfPqDeserialize { res: h, path: p } }
                    &&& h == res.handle
                    &&& p@ == path@.push(0)
                    &&& crate::path::nul_free(path@)
                },
                Err(IvfPqError::InvalidPath(e)) => e.of(path@),
                Err(_) => false,
            },
    {
        match CPath::new(path) {
            Ok(path) => Ok(Construction::Create { work: Work::IvfPqDeserialize { res: res.handle(), path } }),
            Err(e) => Err(IvfPqError::from(e)),
        }
    }

    /// The index, once its making has ended.
    pub fn finish(made: Construction<'_>) -> (r: Result<Index, IvfPqError>)
        requires
            made is Done,
        ensures
            match made->outcome {
                Ok(handle) => r matches Ok(index) && index.handle == handle,
                Err(e) => r == Err::<Index, IvfPqError>(IvfPqError::Library(e)),
            },
    {
        match made.outcome() {
            Ok(handle) => Ok(Index { handle }),
            Err(e) => Err(IvfPqError::from(e)),
        }
    }

    /// Searches for approximate nearest neighbors. The queries must have the
    /// element type of the index, which the C library reports as
    /// `index_dtype`; an index that was loaded or precomputed may report none,
    /// and is then searched without this check.
    pub fn search<'a, Q, N, Dist>(
        &self,
        res: &Resources,
        params: &SearchParams,
        index_dtype: DLDataType,
        queries: Q,
        neighbors: N,
        distances: Dist,
    ) -> (r: Result<Call<'a>, IvfPqError>) where
        Q: IntoDlTensor<'a>,
        N: IntoDlTensorMut<'a>,
        Dist: IntoDlTensorMut<'a>,

        ensures
            match r {
                Ok(call) => {
                    &&& call matches Call::IvfPqSearch {
                        res: h,
                        params: p,
                        index,
                        queries: q,
                        neighbors: n,
                        distances: d,
                    }
                    &&& h == res.handle
                    &&& p == params.handle
                    &&& index == self.handle
                    &&& queries.converts(Ok(q))
                    &&& compatible(index_dtype, q@.dtype)
                    &&& neighbors.converts_mut(Ok(n))
                    &&& distances.converts_mut(Ok(d))
                },
                Err(IvfPqError::DLPack(e)) => crate::dlpack::refused_search(queries, neighbors, distances, e),
                Err(IvfPqError::Validation(text)) => {
                    &&& exists|view: DLTensorView<'a>| #[trigger]
                        queries.converts(Ok(view)) && !compatible(index_dtype, view@.dtype) && text@
                            == crate::neighbors::dtype::mismatch(index_dtype, view@.dtype)
                    &&& crate::dlpack::admitted_mut(neighbors)
                    &&& crate::dlpack::admitted_mut(distances)
                },
                Err(_) => false,
            },
    {
        match search_tensors(queries, neighbors, distances) {
            Ok((queries, neighbors, distances)) => {
                match Index::validate_query_dtype(index_dtype, queries.dtype()) {
                    Ok(()) => {},
                    Err(e) => return Err(e),
                }
                Ok(
                    Call::IvfPqSearch {
                        res: res.handle(),
                        params: params.handle(),
                        index: self.handle,
                        queries,
                        neighbors,
                        distances,
                    },
                )
            },
            Err(e) => Err(IvfPqError::from(e)),
        }
    }

    /// Adds new vectors and their row numbers to the index.
    pub fn extend<'a, V, I>(&mut self, res: &Resources, new_vectors: V, new_indices: I) -> (r: Result<
        Call<'a>,
        IvfPqError,
    >) where V: IntoDlTensor<'a>, I: IntoDlTensor<'a>
        ensures
            *final(self) == *old(self),
            match r {
                Ok(call) => {
                    &&& call matches Call::IvfPqExtend { res: h, new_vectors: v, new_indices: i, index }
                    &&& h == res.handle
                    &&& index == old(self).handle
                    &&& new_vectors.converts(Ok(v))
                    &&& new_indices.converts(Ok(i))
                },
                Err(IvfPqError::DLPack(e)) => {
                    ||| new_vectors.converts(Err(e))
                    ||| crate::dlpack::admitted(new_vectors) && new_indices.converts(Err(e))
                },
                Err(_) => false,
            },
    {
        let new_vectors = match new_vectors.into_dl_tensor() {
            Ok(view) => view,
            Err(e) => return Err(IvfPqError::from(e)),
        };
        let new_indices = match new_indices.into_dl_tensor() {
            Ok(view) => view,
            Err(e) => return Err(IvfPqError::from(e)),
        };
        Ok(Call::IvfPqExtend { res: res.handle(), new_vectors, new_indices, index: self.handle })
    }

    /// Encodes vectors: their clusters go into `output_labels`, a vector of
    /// `uint32`, and their codes into `output_dataset`, a matrix of `uint8`.
    pub fn transform<'a, In, Labels, Out>(
        &self,
        res: &Resources,
        input_dataset: In,
        output_labels: Labels,
        output_dataset: Out,
    ) -> (r: Result<Call<'a>, IvfPqError>) where
        In: IntoDlTensor<'a>,
        Labels: IntoDlTensorMut<'a>,
        Out: IntoDlTensorMut<'a>,

        ensures
            match r {
                Ok(call) => {
                    &&& call matches Call::IvfPqTransform {
                        res: h,
                        index,
                        input_dataset: i,
                        output_labels: l,
                        output_dataset: o,
                    }
                    &&& h == res.handle
                    &&& index == self.handle
                    &&& input_dataset.converts(Ok(i))
                    &&& output_labels.converts_mut(Ok(l))
                    &&& output_dataset.converts_mut(Ok(o))
                    &&& transform_violation(l@.dtype, o@.dtype) is None
                },
                Err(IvfPqError::DLPack(e)) => crate::dlpack::refused_search(
                    input_dataset,
                    output_labels,
                    output_dataset,
                    e,
                ),
                Err(IvfPqError::Validation(text)) => {
                    &&& crate::dlpack::admitted(input_dataset)
                    &&& outputs_differ(output_labels, output_dataset, text@)
                },
                Err(_) => false,
            },
    {
        match search_tensors(input_dataset, output_labels, output_dataset) {
            Ok((input_dataset, output_labels, output_dataset)) => {
                let labels_dtype = output_labels.as_view().dtype();
                let dataset_dtype = output_dataset.as_view().dtype();
                match Index::validate_transform_output_dtypes(labels_dtype, dataset_dtype) {
                    Ok(()) => {},
                    Err(e) => return Err(e),
                }
                Ok(
                    Call::IvfPqTransform {
                        res: res.handle(),
                        index: self.handle,
                        input_dataset,
                        output_labels,
                        output_dataset,
                    },
                )
            },
            Err(e) => Err(IvfPqError::from(e)),
        }
    }

    /// Writes the index to a file.
    pub fn serialize(&self, res: &Resources, path: &[u8]) -> (r: Result<Call<'static>, IvfPqError>)
        ensures
            match r {
                Ok(call) => {
                    &&& call matches Call::IvfPqSerialize { res: h, path: p, index }
                    &&& h == res.handle
                    &&& p@ == path@.push(0)
                    &&& index == self.handle
                    &&& crate::path::nul_free(path@)
                },
                Err(IvfPqError::InvalidPath(e)) => e.of(path@),
                Err(_) => false,
            },
    {
        match CPath::new(path) {
            Ok(path) => Ok(Call::IvfPqSerialize { res: res.handle(), path, index: self.handle }),
            Err(e) => Err(IvfPqError::from(e)),
        }
    }

    /// Asks for the number of inverted lists.
    pub fn n_lists(&self) -> (r: Call<'static>)
        ensures
            r == (Call::FigureGet { index: self.handle, figure: Figure::IvfPqNLists }),
    {
        Call::FigureGet { index: self.handle, figure: Figure::IvfPqNLists }
    }

    /// Asks for the dimensionality of the indexed vectors.
    pub fn dims(&self) -> (r: Call<'static>)
        ensures
            r == (Call::FigureGet { index: self.handle, figure: Figure::IvfPqDim }),
    {
        Call::FigureGet { index: self.handle, figure: Figure::IvfPqDim }
    }

    /// Asks for the number of vectors in the index.
    pub fn size(&self) -> (r: Call<'static>)
        ensures
            r == (Call::FigureGet { index: self.handle, figure: Figure::IvfPqSize }),
    {
        Call::FigureGet { index: self.handle, figure: Figure::IvfPqSize }
    }

    /// Asks for the dimensionality of an encoded vector.
    pub fn pq_dim(&self) -> (r: Call<'static>)
        ensures
            r == (Call::FigureGet { index: self.handle, figure: Figure::IvfPqPqDim }),
    {
        Call::FigureGet { index: self.handle, figure: Figure::IvfPqPqDim }
    }

    /// Asks for the bit width of a code.
    pub fn pq_bits(&self) -> (r: Call<'static>)
        ensures
            r == (Call::FigureGet { index: self.handle, figure: Figure::IvfPqPqBits }),
    {
        Call::FigureGet { index: self.handle, figure: Figure::IvfPqPqBits }
    }

    /// Asks for the number of codes of a vector.
    pub fn pq_len(&self) -> (r: Call<'static>)
        ensures
            r == (Call::FigureGet { index: self.handle, figure: Figure::IvfPqPqLen }),
    {
        Call::FigureGet { index: self.handle, figure: Figure::IvfPqPqLen }
    }

    /// Asks for a view of the cluster centers.
    pub fn centers(&self) -> (r: Call<'static>)
        ensures
            r == (Call::TensorGet { index: self.handle, tensor: Inside::IvfPqCenters }),
    {
        Call::TensorGet { index: self.handle, tensor: Inside::IvfPqCenters }
    }

    /// Asks for a view of the padded cluster centers.
    pub fn centers_padded(&self) -> (r: Call<'static>)
        ensures
            r == (Call::TensorGet { index: self.handle, tensor: Inside::IvfPqCentersPadded }),
    {
        Call::TensorGet { index: self.handle, tensor: Inside::IvfPqCentersPadded }
    }

    /// Asks for a view of the PQ codebook centers.
    pub fn pq_centers(&self) -> (r: Call<'static>)
        ensures
            r == (Call::TensorGet { index: self.handle, tensor: Inside::IvfPqPqCenters }),
    {
        Call::TensorGet { index: self.handle, tensor: Inside::IvfPqPqCenters }
    }

    /// Asks for a view of the rotated cluster centers.
    pub fn centers_rot(&self) -> (r: Call<'static>)
        ensures
            r == (Call::TensorGet { index: self.handle, tensor: Inside::IvfPqCentersRot }),
    {
        Call::TensorGet { index: self.handle, tensor: Inside::IvfPqCentersRot }
    }

    /// Asks for a view of the rotation matrix.
    pub fn rotation_matrix(&self) -> (r: Call<'static>)
        ensures
            r == (Call::TensorGet { index: self.handle, tensor: Inside::IvfPqRotationMatrix }),
    {
        Call::TensorGet { index: self.handle, tensor: Inside::IvfPqRotationMatrix }
    }

    /// Asks for a view of the sizes of the lists.
    pub fn list_sizes(&self) -> (r: Call<'static>)
        ensures
            r == (Call::TensorGet { index: self.handle, tensor: Inside::IvfPqListSizes }),
    {
        Call::TensorGet { index: self.handle, tensor: Inside::IvfPqListSizes }
    }

    /// Asks for a view of the row numbers in one list. `n_lists` is what the C
    /// library answered when asked for the number of lists.
    pub fn list_indices(&self, label: u32, n_lists: Result<i64, LibraryError>) -> (r: Result<
        Call<'static>,
        IvfPqError,
    >)
        ensures
            match r {
                Ok(call) => {
                    &&& label_verdict(n_lists, label, Ok(()))
                    &&& call == (Call::TensorGet { index: self.handle, tensor: Inside::IvfPqListIndices(label) })
                },
                Err(e) => label_verdict(n_lists, label, Err(e)),
            },
    {
        match self.validate_label(label, n_lists) {
            Ok(()) => Ok(Call::TensorGet { index: self.handle, tensor: Inside::IvfPqListIndices(label) }),
            Err(e) => Err(e),
        }
    }

    /// Unpacks the codes of one list, from `offset` on, into `out_codes`; as
    /// many as it has rows. `n_lists` is what the C library answered when asked
    /// for the number of lists.
    pub fn unpack_contiguous_list_data<'a, Out>(
        &self,
        res: &Resources,
        out_codes: Out,
        label: u32,
        offset: u32,
        n_lists: Result<i64, LibraryError>,
    ) -> (r: Result<Call<'a>, IvfPqError>) where Out: IntoDlTensorMut<'a>
        ensures
            match r {
                Ok(call) => {
                    &&& label_verdict(n_lists, label, Ok(()))
                    &&& call matches Call::IvfPqUnpackContiguousListData {
                        res: h,
                        index,
                        out_codes: o,
                        label: l,
                        offset: from,
                    }
                    &&& h == res.handle
                    &&& index == self.handle
                    &&& out_codes.converts_mut(Ok(o))
                    &&& l == label
                    &&& from == offset
                },
                Err(IvfPqError::DLPack(e)) => out_codes.converts_mut(Err(e)),
                Err(e) => crate::dlpack::admitted_mut(out_codes) && label_verdict(n_lists, label, Err(e)),
            },
    {
        let out_codes = match out_codes.into_dl_tensor_mut() {
            Ok(view) => view,
            Err(e) => return Err(IvfPqError::from(e)),
        };
        match self.validate_label(label, n_lists) {
            Ok(()) => {},
            Err(e) => return Err(e),
        }
        Ok(
            Call::IvfPqUnpackContiguousListData {
                res: res.handle(),
                index: self.handle,
                out_codes,
                label,
                offset,
            },
        )
    }

    /// The queries must have the class and width of the index elements, where
    /// these are known.
    pub fn validate_query_dtype(index_dtype: DLDataType, query_dtype: DLDataType) -> (r: Result<(), IvfPqError>)
        ensures
            match r {
                Ok(()) => compatible(index_dtype, query_dtype),
                Err(IvfPqError::Validation(text)) => !compatible(index_dtype, query_dtype) && text@
                    == crate::neighbors::dtype::mismatch(index_dtype, query_dtype),
                Err(_) => false,
            },
    {
        if index_dtype.code == 0 && index_dtype.bits == 0 {
            return Ok(());
        }
        if index_dtype.code != query_dtype.code || index_dtype.bits != query_dtype.bits {
            return Err(IvfPqError::Validation(mismatch_text(index_dtype, query_dtype)));
        }
        Ok(())
    }

    /// Labels are `uint32`, codes `uint8`.
    pub fn validate_transform_output_dtypes(
        output_labels_dtype: DLDataType,
        output_dataset_dtype: DLDataType,
    ) -> (r: Result<(), IvfPqError>)
        ensures
            match transform_violation(output_labels_dtype, output_dataset_dtype) {
                Some(text) => r matches Err(IvfPqError::Validation(s)) && s@ == text,
                None => r is Ok,
            },
    {
        let expected_labels = scalar_type(DLDataTypeCode::kDLUInt, 32);
        if output_labels_dtype.code != expected_labels.code || output_labels_dtype.bits != expected_labels.bits {
            let mut text = String::from_str("output_labels must use uint32 dtype, got ");
            push_dtype(&mut text, output_labels_dtype);
            return Err(IvfPqError::Validation(text));
        }
        let expected_dataset = scalar_type(DLDataTypeCode::kDLUInt, 8);
        if output_dataset_dtype.code != expected_dataset.code || output_dataset_dtype.bits != expected_dataset.bits {
            let mut text = String::from_str("output_dataset must use uint8 dtype, got ");
            push_dtype(&mut text, output_dataset_dtype);
            return Err(IvfPqError::Validation(text));
        }
        Ok(())
    }

    /// A label is below the number of lists.
    pub fn validate_label(&self, label: u32, n_lists: Result<i64, LibraryError>) -> (r: Result<(), IvfPqError>)
        ensures
            label_verdict(n_lists, label, r),
    {
        let n_lists: i64 = match n_lists {
            Ok(n) => n,
            Err(e) => return Err(IvfPqError::from(e)),
        };
        if label as i64 >= n_lists {
            let mut text = String::from_str("label must be < n_lists (");
            push_signed_decimal(&mut text, n_lists);
            text.append("), got ");
            push_decimal(&mut text, label as u64);
            return Err(IvfPqError::Validation(text));
        }
        Ok(())
    }

    /// The call that destroys the index. It ends the index, so that there is
    /// one.
    pub fn teardown(self) -> (r: Call<'static>)
        ensures
            r == (Call::IndexDestroy { kind: IndexKind::IvfPq, index: self.handle }),
    {
        Call::IndexDestroy { kind: IndexKind::IvfPq, index: self.handle }
    }
}

} // verus!

//! The IVF-Flat index.

use vstd::prelude::*;
use vstd::string::*;

use crate::call::{Call, Figure, IndexKind, Inside, Work};
use crate::construction::Construction;
use crate::dlpack::{search_tensors, DLDataType, DLTensorView, DLTensorViewMut, IntoDlTensor, IntoDlTensorMut};
use crate::neighbors::dtype::mismatch_text;
use crate::neighbors::filters::{prepare_filter, SearchFilter};
use crate::path::CPath;
use crate::resources::Resources;

use super::params::{IndexParams, SearchParams};
use super::IvfFlatError;

verus! {

/// An IVF-Flat approximate nearest neighbor index.
#[derive(Debug)]
pub struct Index {
    pub handle: usize,
}

/// The search call of an index on converted tensors.
pub open spec fn searches<'a>(
    call: Call<'a>,
    index: Index,
    res: Resources,
    params: SearchParams,
    filter: Option<&SearchFilter<'_>>,
) -> bool {
    &&& call is IvfFlatSearch
    &&& call->IvfFlatSearch_res == res.handle
    &&& call->IvfFlatSearch_params == params.handle
    &&& call->IvfFlatSearch_index == index.handle
    &&& crate::neighbors::filters::carries(call->IvfFlatSearch_filter, filter)
}

/// The conversion of the queries may give a view of another element type than
/// that of the index.
pub open spec fn queries_differ<'a, Q: IntoDlTensor<'a>>(queries: Q, index_dtype: DLDataType, text: Seq<char>) -> bool {
    exists|view: DLTensorView<'a>| #[trigger]
        queries.converts(Ok(view)) && !crate::neighbors::dtype::agrees(index_dtype, view@.dtype) && text
            == crate::neighbors::dtype::mismatch(index_dtype, view@.dtype)
}

impl Index {
    /// Builds an index from a dataset tensor, which is copied.
    pub fn build<'a, D>(res: &Resources, params: &IndexParams, dataset: D) -> (r: Result<Construction<'a>, IvfFlatError>) where
        D: IntoDlTensor<'a>,

        ensures
            match r {
                Ok(making) => {
                    &&& making matches Construction::Create { work: Work::IvfFlatBuild { res: h, params: p, dataset: view } }
                    &&& h == res.handle
                    &&& p == params.handle
                    &&& dataset.converts(Ok(view))
                },
                Err(IvfFlatError::DLPack(e)) => dataset.converts(Err(e)),
                Err(_) => false,
            },
    {
        let dataset = match dataset.into_dl_tensor() {
            Ok(view) => view,
            Err(e) => return Err(IvfFlatError::from(e)),
        };
        Ok(Construction::Create { work: Work::IvfFlatBuild { res: res.handle(), params: params.handle(), dataset } })
    }

    /// Loads an index from a file that [`Index::serialize`] wrote.
    pub fn deserialize(res: &Resources, path: &[u8]) -> (r: Result<Construction<'static>, IvfFlatError>)
        ensures
            match r {
                Ok(making) => {
                    &&& making matches Construction::Create { work: Work::IvfFlatDeserialize { res: h, path: p } }
                    &&& h == res.handle
                    &&& p@ == path@.push(0)
                    &&& crate::path::nul_free(path@)
                },
                Err(IvfFlatError::InvalidPath(e)) => e.of(path@),
                Err(_) => false,
            },
    {
        match CPath::new(path) {
            Ok(path) => Ok(Construction::Create { work: Work::IvfFlatDeserialize { res: res.handle(), path } }),
            Err(e) => Err(IvfFlatError::from(e)),
        }
    }

    /// The index, once its making has ended.
    pub fn finish(made: Construction<'_>) -> (r: Result<Index, IvfFlatError>)
        requires
            made is Done,
        ensures
            match made->outcome {
                Ok(handle) => r matches Ok(index) && index.handle == handle,
                Err(e) => r == Err::<Index, IvfFlatError>(IvfFlatError::Library(e)),
            },
    {
        match made.outcome() {
            Ok(handle) => Ok(Index { handle }),
            Err(e) => Err(IvfFlatError::from(e)),
        }
    }

    /// Searches for approximate nearest neighbors. The queries must have the
    /// element type of the index, which the C library reports as
    /// `index_dtype`.
    pub fn search<'a, Q, N, Dist>(
        &self,
        res: &Resources,
        params: &SearchParams,
        index_dtype: DLDataType,
        queries: Q,
        neighbors: N,
        distances: Dist,
    ) -> (r: Result<Call<'a>, IvfFlatError>) where
        Q: IntoDlTensor<'a>,
        N: IntoDlTensorMut<'a>,
        Dist: IntoDlTensorMut<'a>,

        ensures
            match r {
                Ok(call) => {
                    &&& searches(call, *self, *res, *params, None)
                    &&& queries.converts(Ok(call->IvfFlatSearch_queries))
                    &&& crate::neighbors::dtype::agrees(index_dtype, call->IvfFlatSearch_queries@.dtype)
                    &&& neighbors.converts_mut(Ok(call->IvfFlatSearch_neighbors))
                    &&& distances.converts_mut(Ok(call->IvfFlatSearch_distances))
                },
                Err(IvfFlatError::DLPack(e)) => crate::dlpack::refused_search(queries, neighbors, distances, e),
                Err(IvfFlatError::Validation(text)) => {
                    &&& queries_differ(queries, index_dtype, text@)
                    &&& crate::dlpack::admitted_mut(neighbors)
                    &&& crate::dlpack::admitted_mut(distances)
                },
                Err(_) => false,
            },
    {
        match search_tensors(queries, neighbors, distances) {
            Ok((queries, neighbors, distances)) => {
                match Index::validate_query_dtype(index_dtype, queries.dtype()) {
                    Ok(()) => {},
                    Err(e) => return Err(e),
                }
                Ok(self.search_impl(res, params, queries, neighbors, distances, None))
            },
            Err(e) => Err(IvfFlatError::from(e)),
        }
    }

    /// Searches for approximate nearest neighbors among the rows that a filter
    /// admits.
    pub fn search_filtered<'a, Q, N, Dist>(
        &self,
        res: &Resources,
        params: &SearchParams,
        index_dtype: DLDataType,
        queries: Q,
        neighbors: N,
        distances: Dist,
        filter: &'a SearchFilter<'_>,
    ) -> (r: Result<Call<'a>, IvfFlatError>) where
        Q: IntoDlTensor<'a>,
        N: IntoDlTensorMut<'a>,
        Dist: IntoDlTensorMut<'a>,

        ensures
            match r {
                Ok(call) => {
                    &&& filter is Bitset
                    &&& searches(call, *self, *res, *params, Some(filter))
                    &&& queries.converts(Ok(call->IvfFlatSearch_queries))
                    &&& crate::neighbors::dtype::agrees(index_dtype, call->IvfFlatSearch_queries@.dtype)
                    &&& neighbors.converts_mut(Ok(call->IvfFlatSearch_neighbors))
                    &&& distances.converts_mut(Ok(call->IvfFlatSearch_distances))
                },
                Err(IvfFlatError::DLPack(e)) => crate::dlpack::refused_search(queries, neighbors, distances, e),
                Err(IvfFlatError::Validation(text)) => {
                    &&& queries_differ(queries, index_dtype, text@) || {
                        &&& filter is Bitmap
                        &&& text@ == "bitmap filters are not supported for IVF-Flat"@
                        &&& exists|view: DLTensorView<'a>| #[trigger]
                            queries.converts(Ok(view)) && crate::neighbors::dtype::agrees(index_dtype, view@.dtype)
                    }
                    &&& crate::dlpack::admitted_mut(neighbors)
                    &&& crate::dlpack::admitted_mut(distances)
                },
                Err(_) => false,
            },
    {
        match search_tensors(queries, neighbors, distances) {
            Ok((queries, neighbors, distances)) => {
                match Index::validate_query_dtype(index_dtype, queries.dtype()) {
                    Ok(()) => {},
                    Err(e) => return Err(e),
                }
                match Index::validate_filter_support(filter) {
                    Ok(()) => {},
                    Err(e) => return Err(e),
                }
                Ok(self.search_impl(res, params, queries, neighbors, distances, Some(filter)))
            },
            Err(e) => Err(IvfFlatError::from(e)),
        }
    }

    /// Adds new vectors and their row numbers to the index.
    pub fn extend<'a, V, I>(&mut self, res: &Resources, new_vectors: V, new_indices: I) -> (r: Result<
        Call<'a>,
        IvfFlatError,
    >) where V: IntoDlTensor<'a>, I: IntoDlTensor<'a>
        ensures
            *final(self) == *old(self),
            match r {
                Ok(call) => {
                    &&& call matches Call::IvfFlatExtend { res: h, new_vectors: v, new_indices: i, index }
                    &&& h == res.handle
                    &&& index == old(self).handle
                    &&& new_vectors.converts(Ok(v))
                    &&& new_indices.converts(Ok(i))
                },
                Err(IvfFlatError::DLPack(e)) => {
                    ||| new_vectors.converts(Err(e))
                    ||| crate::dlpack::admitted(new_vectors) && new_indices.converts(Err(e))
                },
                Err(_) => false,
            },
    {
        let new_vectors = match new_vectors.into_dl_tensor() {
            Ok(view) => view,
            Err(e) => return Err(IvfFlatError::from(e)),
        };
        let new_indices = match new_indices.into_dl_tensor() {
            Ok(view) => view,
            Err(e) => return Err(IvfFlatError::from(e)),
        };
        Ok(Call::IvfFlatExtend { res: res.handle(), new_vectors, new_indices, index: self.handle })
    }

    /// Writes the index to a file.
    pub fn serialize(&self, res: &Resources, path: &[u8]) -> (r: Result<Call<'static>, IvfFlatError>)
        ensures
            match r {
                Ok(call) => {
                    &&& call matches Call::IvfFlatSerialize { res: h, path: p, index }
                    &&& h == res.handle
                    &&& p@ == path@.push(0)
                    &&& index == self.handle
                    &&& crate::path::nul_free(path@)
                },
                Err(IvfFlatError::InvalidPath(e)) => e.of(path@),
                Err(_) => false,
            },
    {
        match CPath::new(path) {
            Ok(path) => Ok(Call::IvfFlatSerialize { res: res.handle(), path, index: self.handle }),
            Err(e) => Err(IvfFlatError::from(e)),
        }
    }

    /// Asks for the number of inverted lists.
    pub fn n_lists(&self) -> (r: Call<'static>)
        ensures
            r == (Call::FigureGet { index: self.handle, figure: Figure::IvfFlatNLists }),
    {
        Call::FigureGet { index: self.handle, figure: Figure::IvfFlatNLists }
    }

    /// Asks for the dimensionality of the indexed vectors.
    pub fn dims(&self) -> (r: Call<'static>)
        ensures
            r == (Call::FigureGet { index: self.handle, figure: Figure::IvfFlatDim }),
    {
        Call::FigureGet { index: self.handle, figure: Figure::IvfFlatDim }
    }

    /// Asks for a view of the cluster centers.
    pub fn centers(&self) -> (r: Call<'static>)
        ensures
            r == (Call::TensorGet { index: self.handle, tensor: Inside::IvfFlatCenters }),
    {
        Call::TensorGet { index: self.handle, tensor: Inside::IvfFlatCenters }
    }

    /// The queries must have the class and width of the index elements.
    pub fn validate_query_dtype(index_dtype: DLDataType, query_dtype: DLDataType) -> (r: Result<(), IvfFlatError>)
        ensures
            match r {
                Ok(()) => crate::neighbors::dtype::agrees(index_dtype, query_dtype),
                Err(IvfFlatError::Validation(text)) => !crate::neighbors::dtype::agrees(index_dtype, query_dtype)
                    && text@ == crate::neighbors::dtype::mismatch(index_dtype, query_dtype),
                Err(_) => false,
            },
    {
        if index_dtype.code != query_dtype.code || index_dtype.bits != query_dtype.bits {
            return Err(IvfFlatError::Validation(mismatch_text(index_dtype, query_dtype)));
        }
        Ok(())
    }

    /// IVF-Flat reads row-level bitsets only.
    pub fn validate_filter_support(filter: &SearchFilter<'_>) -> (r: Result<(), IvfFlatError>)
        ensures
            match r {
                Ok(()) => filter is Bitset,
                Err(IvfFlatError::Validation(text)) => filter is Bitmap && text@
                    == "bitmap filters are not supported for IVF-Flat"@,
                Err(_) => false,
            },
    {
        if filter.uses_bitmap() {
            return Err(IvfFlatError::Validation(String::from_str("bitmap filters are not supported for IVF-Flat")));
        }
        Ok(())
    }

    fn search_impl<'a>(
        &self,
        res: &Resources,
        params: &SearchParams,
        queries: DLTensorView<'a>,
        neighbors: DLTensorViewMut<'a>,
        distances: DLTensorViewMut<'a>,
        filter: Option<&'a SearchFilter<'_>>,
    ) -> (r: Call<'a>)
        ensures
            searches(r, *self, *res, *params, filter),
            r->IvfFlatSearch_queries == queries,
            r->IvfFlatSearch_neighbors == neighbors,
            r->IvfFlatSearch_distances == distances,
    {
        Call::IvfFlatSearch {
            res: res.handle(),
            params: params.handle(),
            index: self.handle,
            queries,
            neighbors,
            distances,
            filter: prepare_filter(filter),
        }
    }

    /// The call that destroys the index. It ends the index, so that there is
    /// one.
    pub fn teardown(self) -> (r: Call<'static>)
        ensures
            r == (Call::IndexDestroy { kind: IndexKind::IvfFlat, index: self.handle }),
    {
        Call::IndexDestroy { kind: IndexKind::IvfFlat, index: self.handle }
    }
}

} // verus!

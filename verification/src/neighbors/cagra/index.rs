//! The CAGRA index.

use std::marker::PhantomData;

use vstd::prelude::*;
use vstd::string::*;

use crate::call::{Call, Figure, IndexKind, Inside, Work};
use crate::construction::{Construction, Reply};
use crate::distance::DistanceType;
use crate::dlpack::{search_tensors, DLTensorView, DLTensorViewMut, IntoDlTensor, IntoDlTensorMut};
use crate::ffi::cuvsDistanceType;
use crate::neighbors::filters::{prepare_filter, SearchFilter};
use crate::path::CPath;
use crate::resources::Resources;

use super::params::{ExtendParams, IndexParams, SearchParams};
use super::CagraError;

verus! {

/// A CAGRA approximate nearest neighbor index.
///
/// The lifetime ties the index to the dataset (and graph) tensors that it was
/// made from: the C library may keep a view of them. An index that was loaded
/// or merged owns its data.
#[derive(Debug)]
pub struct Index<'d> {
    pub handle: usize,
    pub dataset: PhantomData<&'d ()>,
}

/// The merging of indices. Unlike an index in the making, a merged one owns its
/// data and needs neither the merged indices nor the filter once it is made.
#[derive(Debug)]
pub struct Merging<'a> {
    construction: Construction<'a>,
}

impl<'a> View for Merging<'a> {
    type V = Construction<'a>;

    closed spec fn view(&self) -> Construction<'a> {
        self.construction
    }
}

impl<'a> Merging<'a> {
    /// Where the merging stands.
    pub fn construction(&self) -> (r: &Construction<'a>)
        ensures
            *r == self@,
    {
        &self.construction
    }

    /// Where the merging stands after the call that is due has been answered.
    pub fn resume(self, reply: Reply) -> (r: Merging<'a>)
        ensures
            r@ == self@.next(reply),
    {
        Merging { construction: self.construction.resume(reply) }
    }

    /// The merged index, once its making has ended.
    pub fn finish(self) -> (r: Result<Index<'static>, CagraError>)
        requires
            self@ is Done,
        ensures
            match self@->outcome {
                Ok(handle) => r matches Ok(index) && index.handle == handle,
                Err(e) => r == Err::<Index<'static>, CagraError>(CagraError::Library(e)),
            },
    {
        match self.construction.outcome() {
            Ok(handle) => Ok(Index { handle, dataset: PhantomData }),
            Err(e) => Err(CagraError::from(e)),
        }
    }
}

/// The search call of an index on converted tensors.
pub open spec fn searches<'a, 'd>(
    call: Call<'a>,
    index: Index<'d>,
    res: Resources,
    params: SearchParams,
    filter: Option<&SearchFilter<'_>>,
) -> bool {
    &&& call is CagraSearch
    &&& call->CagraSearch_res == res.handle
    &&& call->CagraSearch_params == params.handle
    &&& call->CagraSearch_index == index.handle
    &&& crate::neighbors::filters::carries(call->CagraSearch_filter, filter)
}

/// The handles of some indices, in order.
pub open spec fn handles_of(indices: Seq<&Index<'_>>) -> Seq<usize> {
    indices.map_values(|index: &Index<'_>| index.handle)
}

impl<'d> Index<'d> {
    /// Builds an index from a dataset tensor, which has to outlive it.
    pub fn build<D>(res: &Resources, params: &IndexParams, dataset: D) -> (r: Result<Construction<'d>, CagraError>) where
        D: IntoDlTensor<'d>,

        ensures
            match r {
                Ok(making) => {
                    &&& making matches Construction::Create { work: Work::CagraBuild { res: h, params: p, dataset: view } }
                    &&& h == res.handle
                    &&& p == params.handle
                    &&& dataset.converts(Ok(view))
                },
                Err(CagraError::DLPack(e)) => dataset.converts(Err(e)),
                Err(_) => false,
            },
    {
        let dataset = match dataset.into_dl_tensor() {
            Ok(view) => view,
            Err(e) => return Err(CagraError::from(e)),
        };
        Ok(Construction::Create { work: Work::CagraBuild { res: res.handle(), params: params.handle(), dataset } })
    }

    /// Makes an index from an existing graph and dataset, which have to outlive
    /// it.
    pub fn from_args<G, D>(res: &Resources, metric: DistanceType, graph: G, dataset: D) -> (r: Result<
        Construction<'d>,
        CagraError,
    >) where G: IntoDlTensor<'d>, D: IntoDlTensor<'d>
        ensures
            match r {
                Ok(making) => {
                    &&& making matches Construction::Create {
                        work: Work::CagraFromArgs { res: h, metric: m, graph: g, dataset: d },
                    }
                    &&& h == res.handle
                    &&& m == metric.code()
                    &&& graph.converts(Ok(g))
                    &&& dataset.converts(Ok(d))
                },
                Err(CagraError::DLPack(e)) => {
                    ||| graph.converts(Err(e))
                    ||| crate::dlpack::admitted(graph) && dataset.converts(Err(e))
                },
                Err(_) => false,
            },
    {
        let graph = match graph.into_dl_tensor() {
            Ok(view) => view,
            Err(e) => return Err(CagraError::from(e)),
        };
        let dataset = match dataset.into_dl_tensor() {
            Ok(view) => view,
            Err(e) => return Err(CagraError::from(e)),
        };
        Ok(
            Construction::Create {
                work: Work::CagraFromArgs { res: res.handle(), metric: cuvsDistanceType::from(metric), graph, dataset },
            },
        )
    }

    /// Loads an index from a file that [`Index::serialize`] wrote.
    pub fn deserialize(res: &Resources, path: &[u8]) -> (r: Result<Construction<'static>, CagraError>)
        ensures
            match r {
                Ok(making) => {
                    &&& making matches Construction::Create { work: Work::CagraDeserialize { res: h, path: p } }
                    &&& h == res.handle
                    &&& p@ == path@.push(0)
                    &&& crate::path::nul_free(path@)
                },
                Err(CagraError::InvalidPath(e)) => e.of(path@),
                Err(_) => false,
            },
    {
        match CPath::new(path) {
            Ok(path) => Ok(Construction::Create { work: Work::CagraDeserialize { res: res.handle(), path } }),
            Err(e) => Err(CagraError::from(e)),
        }
    }

    /// The index, once its making has ended. It lives no longer than the tensors
    /// that it was made from.
    pub fn finish(made: Construction<'d>) -> (r: Result<Index<'d>, CagraError>)
        requires
            made is Done,
        ensures
            match made->outcome {
                Ok(handle) => r matches Ok(index) && index.handle == handle,
                Err(e) => r == Err::<Index<'d>, CagraError>(CagraError::Library(e)),
            },
    {
        match made.outcome() {
            Ok(handle) => Ok(Index { handle, dataset: PhantomData }),
            Err(e) => Err(CagraError::from(e)),
        }
    }

    /// Searches for approximate nearest neighbors. The results go into the
    /// pre-allocated `neighbors` and `distances`.
    pub fn search<'a, Q, N, Dist>(
        &self,
        res: &Resources,
        params: &SearchParams,
        queries: Q,
        neighbors: N,
        distances: Dist,
    ) -> (r: Result<Call<'a>, CagraError>) where
        Q: IntoDlTensor<'a>,
        N: IntoDlTensorMut<'a>,
        Dist: IntoDlTensorMut<'a>,

        ensures
            match r {
                Ok(call) => {
                    &&& searches(call, *self, *res, *params, None)
                    &&& queries.converts(Ok(call->CagraSearch_queries))
                    &&& neighbors.converts_mut(Ok(call->CagraSearch_neighbors))
                    &&& distances.converts_mut(Ok(call->CagraSearch_distances))
                },
                Err(CagraError::DLPack(e)) => crate::dlpack::refused_search(queries, neighbors, distances, e),
                Err(_) => false,
            },
    {
        match search_tensors(queries, neighbors, distances) {
            Ok((queries, neighbors, distances)) => Ok(
                self.search_impl(res, params, queries, neighbors, distances, None),
            ),
            Err(e) => Err(CagraError::from(e)),
        }
    }

    /// Searches for approximate nearest neighbors among the rows that a filter
    /// admits.
    pub fn search_filtered<'a, Q, N, Dist>(
        &self,
        res: &Resources,
        params: &SearchParams,
        queries: Q,
        neighbors: N,
        distances: Dist,
        filter: &'a SearchFilter<'_>,
    ) -> (r: Result<Call<'a>, CagraError>) where
        Q: IntoDlTensor<'a>,
        N: IntoDlTensorMut<'a>,
        Dist: IntoDlTensorMut<'a>,

        ensures
            match r {
                Ok(call) => {
                    &&& filter is Bitset
                    &&& searches(call, *self, *res, *params, Some(filter))
                    &&& queries.converts(Ok(call->CagraSearch_queries))
                    &&& neighbors.converts_mut(Ok(call->CagraSearch_neighbors))
                    &&& distances.converts_mut(Ok(call->CagraSearch_distances))
                },
                Err(CagraError::DLPack(e)) => crate::dlpack::refused_search(queries, neighbors, distances, e),
                Err(CagraError::Validation(text)) => {
                    &&& filter is Bitmap
                    &&& text@ == "bitmap filters are not supported for CAGRA"@
                    &&& crate::dlpack::admitted(queries)
                    &&& crate::dlpack::admitted_mut(neighbors)
                    &&& crate::dlpack::admitted_mut(distances)
                },
                Err(_) => false,
            },
    {
        match search_tensors(queries, neighbors, distances) {
            Ok((queries, neighbors, distances)) => {
                match Index::validate_filter_support(filter) {
                    Ok(()) => {},
                    Err(e) => return Err(e),
                }
                Ok(self.search_impl(res, params, queries, neighbors, distances, Some(filter)))
            },
            Err(e) => Err(CagraError::from(e)),
        }
    }

    /// Extends the index with additional vectors.
    pub fn extend<'a, D>(&mut self, res: &Resources, params: &ExtendParams, additional_dataset: D) -> (r: Result<
        Call<'a>,
        CagraError,
    >) where D: IntoDlTensor<'a>
        ensures
            *final(self) == *old(self),
            match r {
                Ok(call) => {
                    &&& call matches Call::CagraExtend { res: h, params: p, additional_dataset: view, index }
                    &&& h == res.handle
                    &&& p == params.handle
                    &&& index == old(self).handle
                    &&& additional_dataset.converts(Ok(view))
                },
                Err(CagraError::DLPack(e)) => additional_dataset.converts(Err(e)),
                Err(_) => false,
            },
    {
        match additional_dataset.into_dl_tensor() {
            Ok(additional_dataset) => Ok(
                Call::CagraExtend {
                    res: res.handle(),
                    params: params.handle(),
                    additional_dataset,
                    index: self.handle,
                },
            ),
            Err(e) => Err(CagraError::from(e)),
        }
    }

    /// Merges indices of one element type and dimensionality into a new index,
    /// which owns its data.
    pub fn merge<'a>(res: &Resources, params: &IndexParams, indices: &[&Index<'_>]) -> (r: Merging<'a>)
        ensures
            r@ matches Construction::Create { work: Work::CagraMerge { res: h, params: p, indices: i, filter: f } }
                && h == res.handle && p == params.handle && i@ == handles_of(indices@)
                && crate::neighbors::filters::carries(f, None),
    {
        Index::merge_impl(res, params, indices, None)
    }

    /// Merges the rows of some indices that a filter admits.
    pub fn merge_filtered<'a>(
        res: &Resources,
        params: &IndexParams,
        indices: &[&Index<'_>],
        filter: &'a SearchFilter<'_>,
    ) -> (r: Result<Merging<'a>, CagraError>)
        ensures
            match r {
                Ok(making) => {
                    &&& filter is Bitset
                    &&& making@ matches Construction::Create {
                        work: Work::CagraMerge { res: h, params: p, indices: i, filter: f },
                    }
                    &&& h == res.handle
                    &&& p == params.handle
                    &&& i@ == handles_of(indices@)
                    &&& crate::neighbors::filters::carries(f, Some(filter))
                },
                Err(CagraError::Validation(text)) => filter is Bitmap && text@
                    == "bitmap filters are not supported for CAGRA"@,
                Err(_) => false,
            },
    {
        match Index::validate_filter_support(filter) {
            Ok(()) => {},
            Err(e) => return Err(e),
        }
        Ok(Index::merge_impl(res, params, indices, Some(filter)))
    }

    /// Writes the index to a file; without `include_dataset` only its graph.
    pub fn serialize(&self, res: &Resources, path: &[u8], include_dataset: bool) -> (r: Result<
        Call<'static>,
        CagraError,
    >)
        ensures
            match r {
                Ok(call) => {
                    &&& call matches Call::CagraSerialize { res: h, path: p, index, include_dataset: with }
                    &&& h == res.handle
                    &&& p@ == path@.push(0)
                    &&& index == self.handle
                    &&& with == include_dataset
                    &&& crate::path::nul_free(path@)
                },
                Err(CagraError::InvalidPath(e)) => e.of(path@),
                Err(_) => false,
            },
    {
        match CPath::new(path) {
            Ok(path) => Ok(Call::CagraSerialize { res: res.handle(), path, index: self.handle, include_dataset }),
            Err(e) => Err(CagraError::from(e)),
        }
    }

    /// Writes the index to a file in the format of the cuVS hnswlib wrapper.
    pub fn serialize_to_hnswlib(&self, res: &Resources, path: &[u8]) -> (r: Result<Call<'static>, CagraError>)
        ensures
            match r {
                Ok(call) => {
                    &&& call matches Call::CagraSerializeToHnswlib { res: h, path: p, index }
                    &&& h == res.handle
                    &&& p@ == path@.push(0)
                    &&& index == self.handle
                    &&& crate::path::nul_free(path@)
                },
                Err(CagraError::InvalidPath(e)) => e.of(path@),
                Err(_) => false,
            },
    {
        match CPath::new(path) {
            Ok(path) => Ok(Call::CagraSerializeToHnswlib { res: res.handle(), path, index: self.handle }),
            Err(e) => Err(CagraError::from(e)),
        }
    }

    /// Asks for the number of dimensions of the indexed vectors.
    pub fn dims(&self) -> (r: Call<'static>)
        ensures
            r == (Call::FigureGet { index: self.handle, figure: Figure::CagraDims }),
    {
        Call::FigureGet { index: self.handle, figure: Figure::CagraDims }
    }

    /// Asks for the number of vectors in the index.
    pub fn size(&self) -> (r: Call<'static>)
        ensures
            r == (Call::FigureGet { index: self.handle, figure: Figure::CagraSize }),
    {
        Call::FigureGet { index: self.handle, figure: Figure::CagraSize }
    }

    /// Asks for the degree of the pruned graph.
    pub fn graph_degree(&self) -> (r: Call<'static>)
        ensures
            r == (Call::FigureGet { index: self.handle, figure: Figure::CagraGraphDegree }),
    {
        Call::FigureGet { index: self.handle, figure: Figure::CagraGraphDegree }
    }

    /// Asks for a view of the dataset attached to the index.
    pub fn dataset(&self) -> (r: Call<'static>)
        ensures
            r == (Call::TensorGet { index: self.handle, tensor: Inside::CagraDataset }),
    {
        Call::TensorGet { index: self.handle, tensor: Inside::CagraDataset }
    }

    /// Asks for a view of the graph stored inside the index.
    pub fn graph(&self) -> (r: Call<'static>)
        ensures
            r == (Call::TensorGet { index: self.handle, tensor: Inside::CagraGraph }),
    {
        Call::TensorGet { index: self.handle, tensor: Inside::CagraGraph }
    }

    /// The call that destroys the index. It ends the index, so that there is
    /// one.
    pub fn teardown(self) -> (r: Call<'static>)
        ensures
            r == (Call::IndexDestroy { kind: IndexKind::Cagra, index: self.handle }),
    {
        Call::IndexDestroy { kind: IndexKind::Cagra, index: self.handle }
    }

    /// CAGRA reads row-level bitsets only.
    pub fn validate_filter_support(filter: &SearchFilter<'_>) -> (r: Result<(), CagraError>)
        ensures
            match r {
                Ok(()) => filter is Bitset,
                Err(CagraError::Validation(text)) => filter is Bitmap && text@
                    == "bitmap filters are not supported for CAGRA"@,
                Err(_) => false,
            },
    {
        if filter.uses_bitmap() {
            return Err(CagraError::Validation(String::from_str("bitmap filters are not supported for CAGRA")));
        }
        Ok(())
    }

    fn search_impl<'a>(
        &self,
        res: &Resources,
        params: &SearchParams,
        queries: DLTensorView<'a>,
        neighbors: DLTensorViewMut<'a>,
        distances: DLTensorViewMut<'a>,
        filter: Option<&'a SearchFilter<'_>>,
    ) -> (r: Call<'a>)
        ensures
            searches(r, *self, *res, *params, filter),
            r->CagraSearch_queries == queries,
            r->CagraSearch_neighbors == neighbors,
            r->CagraSearch_distances == distances,
    {
        Call::CagraSearch {
            res: res.handle(),
            params: params.handle(),
            index: self.handle,
            queries,
            neighbors,
            distances,
            filter: prepare_filter(filter),
        }
    }

    fn merge_impl<'a>(
        res: &Resources,
        params: &IndexParams,
        indices: &[&Index<'_>],
        filter: Option<&'a SearchFilter<'_>>,
    ) -> (r: Merging<'a>)
        ensures
            r@ matches Construction::Create { work: Work::CagraMerge { res: h, params: p, indices: i, filter: f } }
                && h == res.handle && p == params.handle && i@ == handles_of(indices@)
                && crate::neighbors::filters::carries(f, filter),
    {
        let mut handles: Vec<usize> = Vec::new();
        let mut i: usize = 0;
        while i < indices.len()
            invariant
                i <= indices@.len(),
                handles@ == handles_of(indices@.take(i as int)),
            decreases indices.len() - i,
        {
            handles.push(indices[i].handle);
            i += 1;
            assert(handles@ =~= handles_of(indices@.take(i as int)));
        }
        assert(indices@.take(indices@.len() as int) =~= indices@);
        Merging {
            construction: Construction::Create {
                work: Work::CagraMerge {
                    res: res.handle(),
                    params: params.handle(),
                    indices: handles,
                    filter: prepare_filter(filter),
                },
            },
        }
    }
}

} // verus!

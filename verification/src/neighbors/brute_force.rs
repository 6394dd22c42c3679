//! Brute-force (exact) nearest neighbor search.

use std::marker::PhantomData;

use vstd::prelude::*;
use vstd::string::*;

use crate::call::{cuvsFilter, Call, IndexKind, Work};
use crate::construction::Construction;
use crate::distance::DistanceType;
use crate::dlpack::{search_tensors, DLPackError, DLTensorView, DLTensorViewMut, IntoDlTensor, IntoDlTensorMut};
use crate::error::LibraryError;
use crate::ffi::cuvsDistanceType;
use crate::neighbors::filters::prepare_filter;
use crate::path::{CPath, NulError};
use crate::resources::Resources;

pub use crate::neighbors::filters::SearchFilter;

verus! {

/// Error type for brute-force operations.
#[derive(Debug)]
pub enum BruteForceError {
    /// The C library reported a failure.
    Library(LibraryError),
    /// Tensor conversion into DLPack metadata failed.
    DLPack(DLPackError),
    /// A file path contained an interior zero byte.
    InvalidPath(NulError),
}

impl BruteForceError {
    /// The message of the error.
    pub open spec fn message(self) -> Seq<char> {
        match self {
            BruteForceError::Library(e) => e.0@,
            BruteForceError::DLPack(e) => e.message(),
            BruteForceError::InvalidPath(_) => "path contains interior NUL byte"@,
        }
    }

    pub fn to_string(&self) -> (r: String)
        ensures
            r@ == self.message(),
    {
        match self {
            BruteForceError::Library(e) => e.to_string(),
            BruteForceError::DLPack(e) => e.to_string(),
            BruteForceError::InvalidPath(_) => String::from_str("path contains interior NUL byte"),
        }
    }
}

impl vstd::std_specs::convert::FromSpecImpl<LibraryError> for BruteForceError {
    open spec fn obeys_from_spec() -> bool {
        true
    }

    open spec fn from_spec(e: LibraryError) -> BruteForceError {
        BruteForceError::Library(e)
    }
}

impl From<LibraryError> for BruteForceError {
    fn from(e: LibraryError) -> (r: BruteForceError) {
        BruteForceError::Library(e)
    }
}

impl vstd::std_specs::convert::FromSpecImpl<DLPackError> for BruteForceError {
    open spec fn obeys_from_spec() -> bool {
        true
    }

    open spec fn from_spec(e: DLPackError) -> BruteForceError {
        BruteForceError::DLPack(e)
    }
}

impl From<DLPackError> for BruteForceError {
    fn from(e: DLPackError) -> (r: BruteForceError) {
        BruteForceError::DLPack(e)
    }
}

impl vstd::std_specs::convert::FromSpecImpl<NulError> for BruteForceError {
    open spec fn obeys_from_spec() -> bool {
        true
    }

    open spec fn from_spec(e: NulError) -> BruteForceError {
        BruteForceError::InvalidPath(e)
    }
}

impl From<NulError> for BruteForceError {
    fn from(e: NulError) -> (r: BruteForceError) {
        BruteForceError::InvalidPath(e)
    }
}

/// A brute-force index. It keeps a view of its dataset, which has to outlive
/// it; an index that was loaded owns its data.
#[derive(Debug)]
pub struct Index<'d> {
    pub handle: usize,
    pub dataset: PhantomData<&'d ()>,
}

/// The search call of an index on converted tensors.
pub open spec fn searches<'a, 'd>(
    call: Call<'a>,
    index: Index<'d>,
    res: Resources,
    filter: Option<&SearchFilter<'_>>,
) -> bool {
    &&& call is BruteForceSearch
    &&& call->BruteForceSearch_res == res.handle
    &&& call->BruteForceSearch_index == index.handle
    &&& crate::neighbors::filters::carries(call->BruteForceSearch_filter, filter)
}

impl<'d> Index<'d> {
    /// Builds an index from a dataset tensor.
    pub fn build<D>(res: &Resources, dataset: D, metric: DistanceType) -> (r: Result<
        Construction<'d>,
        BruteForceError,
    >) where D: IntoDlTensor<'d>
        ensures
            match r {
                Ok(making) => {
                    &&& making matches Construction::Create {
                        work: Work::BruteForceBuild { res: h, dataset: view, metric: m, metric_arg: a },
                    }
                    &&& h == res.handle
                    &&& dataset.converts(Ok(view))
                    &&& m == metric.code()
                    &&& a == metric.argument()
                },
                Err(BruteForceError::DLPack(e)) => dataset.converts(Err(e)),
                Err(_) => false,
            },
    {
        let dataset = match dataset.into_dl_tensor() {
            Ok(view) => view,
            Err(e) => return Err(BruteForceError::from(e)),
        };
        Ok(
            Construction::Create {
                work: Work::BruteForceBuild {
                    res: res.handle(),
                    dataset,
                    metric: cuvsDistanceType::from(metric),
                    metric_arg: metric.metric_arg(),
                },
            },
        )
    }

    /// The index, once its making has ended. It lives no longer than the dataset
    /// that it was made from.
    pub fn finish(made: Construction<'d>) -> (r: Result<Index<'d>, BruteForceError>)
        requires
            made is Done,
        ensures
            match made->outcome {
                Ok(handle) => r matches Ok(index) && index.handle == handle,
                Err(e) => r == Err::<Index<'d>, BruteForceError>(BruteForceError::Library(e)),
            },
    {
        match made.outcome() {
            Ok(handle) => Ok(Index { handle, dataset: PhantomData }),
            Err(e) => Err(BruteForceError::from(e)),
        }
    }

    /// Searches for the nearest neighbors. The results go into the
    /// pre-allocated `neighbors` and `distances`.
    pub fn search<'a, Q, N, Dist>(&self, res: &Resources, queries: Q, neighbors: N, distances: Dist) -> (r: Result<
        Call<'a>,
        BruteForceError,
    >) where Q: IntoDlTensor<'a>, N: IntoDlTensorMut<'a>, Dist: IntoDlTensorMut<'a>
        ensures
            match r {
                Ok(call) => {
                    &&& searches(call, *self, *res, None)
                    &&& queries.converts(Ok(call->BruteForceSearch_queries))
                    &&& neighbors.converts_mut(Ok(call->BruteForceSearch_neighbors))
                    &&& distances.converts_mut(Ok(call->BruteForceSearch_distances))
                },
                Err(BruteForceError::DLPack(e)) => crate::dlpack::refused_search(queries, neighbors, distances, e),
                Err(_) => false,
            },
    {
        match search_tensors(queries, neighbors, distances) {
            Ok((queries, neighbors, distances)) => Ok(
                self.search_impl(res, queries, neighbors, distances, prepare_filter(None)),
            ),
            Err(e) => Err(BruteForceError::from(e)),
        }
    }

    /// Searches for the nearest neighbors among what a filter admits; both
    /// kinds of filter are supported.
    pub fn search_filtered<'a, Q, N, Dist>(
        &self,
        res: &Resources,
        queries: Q,
        neighbors: N,
        distances: Dist,
        filter: &'a SearchFilter<'_>,
    ) -> (r: Result<Call<'a>, BruteForceError>) where
        Q: IntoDlTensor<'a>,
        N: IntoDlTensorMut<'a>,
        Dist: IntoDlTensorMut<'a>,

        ensures
            match r {
                Ok(call) => {
                    &&& searches(call, *self, *res, Some(filter))
                    &&& queries.converts(Ok(call->BruteForceSearch_queries))
                    &&& neighbors.converts_mut(Ok(call->BruteForceSearch_neighbors))
                    &&& distances.converts_mut(Ok(call->BruteForceSearch_distances))
                },
                Err(BruteForceError::DLPack(e)) => crate::dlpack::refused_search(queries, neighbors, distances, e),
                Err(_) => false,
            },
    {
        match search_tensors(queries, neighbors, distances) {
            Ok((queries, neighbors, distances)) => Ok(
                self.search_impl(res, queries, neighbors, distances, prepare_filter(Some(filter))),
            ),
            Err(e) => Err(BruteForceError::from(e)),
        }
    }

    /// Writes the index to a file.
    pub fn serialize(&self, res: &Resources, path: &[u8]) -> (r: Result<Call<'static>, BruteForceError>)
        ensures
            match r {
                Ok(call) => {
                    &&& call matches Call::BruteForceSerialize { res: h, path: p, index }
                    &&& h == res.handle
                    &&& p@ == path@.push(0)
                    &&& index == self.handle
                    &&& crate::path::nul_free(path@)
                },
                Err(BruteForceError::InvalidPath(e)) => e.of(path@),
                Err(_) => false,
            },
    {
        match CPath::new(path) {
            Ok(path) => Ok(Call::BruteForceSerialize { res: res.handle(), path, index: self.handle }),
            Err(e) => Err(BruteForceError::from(e)),
        }
    }

    /// Loads an index from a file that [`Index::serialize`] wrote.
    pub fn deserialize(res: &Resources, path: &[u8]) -> (r: Result<Construction<'static>, BruteForceError>)
        ensures
            match r {
                Ok(making) => {
                    &&& making matches Construction::Create { work: Work::BruteForceDeserialize { res: h, path: p } }
                    &&& h == res.handle
                    &&& p@ == path@.push(0)
                    &&& crate::path::nul_free(path@)
                },
                Err(BruteForceError::InvalidPath(e)) => e.of(path@),
                Err(_) => false,
            },
    {
        match CPath::new(path) {
            Ok(path) => Ok(Construction::Create { work: Work::BruteForceDeserialize { res: res.handle(), path } }),
            Err(e) => Err(BruteForceError::from(e)),
        }
    }

    fn search_impl<'a>(
        &self,
        res: &Resources,
        queries: DLTensorView<'a>,
        neighbors: DLTensorViewMut<'a>,
        distances: DLTensorViewMut<'a>,
        filter: cuvsFilter<'a>,
    ) -> (r: Call<'a>)
        ensures
            r == (Call::BruteForceSearch {
                res: res.handle,
                index: self.handle,
                queries,
                neighbors,
                distances,
                filter,
            }),
    {
        Call::BruteForceSearch { res: res.handle(), index: self.handle, queries, neighbors, distances, filter }
    }

    /// The call that destroys the index. It ends the index, so that there is
    /// one.
    pub fn teardown(self) -> (r: Call<'static>)
        ensures
            r == (Call::IndexDestroy { kind: IndexKind::BruteForce, index: self.handle }),
    {
        Call::IndexDestroy { kind: IndexKind::BruteForce, index: self.handle }
    }
}

} // verus!

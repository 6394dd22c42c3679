//! The Vamana index.

use vstd::prelude::*;

use crate::call::{Call, Figure, IndexKind, Work};
use crate::construction::Construction;
use crate::dlpack::IntoDlTensor;
use crate::error::LibraryError;
use crate::path::CPath;
use crate::resources::Resources;

use super::params::IndexParams;
use super::VamanaError;

verus! {

/// A Vamana graph index.
#[derive(Debug)]
pub struct Index {
    pub handle: usize,
}

impl Index {
    /// Builds an index from a dataset tensor.
    pub fn build<'a, D>(res: &Resources, params: &IndexParams, dataset: D) -> (r: Result<Construction<'a>, VamanaError>) where
        D: IntoDlTensor<'a>,

        ensures
            match r {
                Ok(making) => {
                    &&& making matches Construction::Create { work: Work::VamanaBuild { res: h, params: p, dataset: view } }
                    &&& h == res.handle
                    &&& p == params.handle
                    &&& dataset.converts(Ok(view))
                },
                Err(VamanaError::DLPack(e)) => dataset.converts(Err(e)),
                Err(_) => false,
            },
    {
        let dataset = match dataset.into_dl_tensor() {
            Ok(view) => view,
            Err(e) => return Err(VamanaError::from(e)),
        };
        Ok(Construction::Create { work: Work::VamanaBuild { res: res.handle(), params: params.handle(), dataset } })
    }

    /// The index, once its making has ended.
    pub fn finish(made: Construction<'_>) -> (r: Result<Index, VamanaError>)
        requires
            made is Done,
        ensures
            match made->outcome {
                Ok(handle) => r matches Ok(index) && index.handle == handle,
                Err(e) => r == Err::<Index, VamanaError>(VamanaError::Library(e)),
            },
    {
        match made.outcome() {
            Ok(handle) => Ok(Index { handle }),
            Err(e) => Err(VamanaError::from(e)),
        }
    }

    /// Writes the index to a file in the DiskANN format, with or without the
    /// dataset.
    pub fn serialize(&self, res: &Resources, path: &[u8], include_dataset: bool) -> (r: Result<
        Call<'static>,
        VamanaError,
    >)
        ensures
            match r {
                Ok(call) => {
                    &&& call matches Call::VamanaSerialize { res: h, path: p, index, include_dataset: with }
                    &&& h == res.handle
                    &&& p@ == path@.push(0)
                    &&& index == self.handle
                    &&& with == include_dataset
                    &&& crate::path::nul_free(path@)
                },
                Err(VamanaError::InvalidPath(e)) => e.of(path@),
                Err(_) => false,
            },
    {
        match CPath::new(path) {
            Ok(path) => Ok(Call::VamanaSerialize { res: res.handle(), path, index: self.handle, include_dataset }),
            Err(e) => Err(VamanaError::from(e)),
        }
    }

    /// Asks for the dimensionality of the indexed vectors.
    pub fn dims(&self) -> (r: Call<'static>)
        ensures
            r == (Call::FigureGet { index: self.handle, figure: Figure::VamanaDims }),
    {
        Call::FigureGet { index: self.handle, figure: Figure::VamanaDims }
    }

    /// The dimensionality, from the narrower number that the C library reports.
    pub fn reported_dims(reply: Result<i32, LibraryError>) -> (r: Result<i64, VamanaError>)
        ensures
            match reply {
                Ok(dim) => r matches Ok(wide) && wide == dim,
                Err(e) => r == Err::<i64, VamanaError>(VamanaError::Library(e)),
            },
    {
        match reply {
            Ok(dim) => Ok(dim as i64),
            Err(e) => Err(VamanaError::from(e)),
        }
    }

    /// The call that destroys the index. It ends the index, so that there is
    /// one.
    pub fn teardown(self) -> (r: Call<'static>)
        ensures
            r == (Call::IndexDestroy { kind: IndexKind::Vamana, index: self.handle }),
    {
        Call::IndexDestroy { kind: IndexKind::Vamana, index: self.handle }
    }
}

} // verus!

//! Parameters for extending a CAGRA index.

use vstd::prelude::*;

use crate::call::{Call, ParamsKind};
use crate::error::LibraryError;
use crate::ffi::{cuvsCagraExtendParams, Created};
use crate::neighbors::cagra::CagraError;
use crate::settings::choose_setting;

verus! {

/// Settings of [`ExtendParams`]; one that is not given keeps the library's default.
#[derive(Debug)]
pub struct ExtendParamsBuilder {
    pub max_chunk_size: Option<u32>,
}

impl ExtendParamsBuilder {
    /// The record with each given setting in place of its default.
    pub open spec fn overridden(self, defaults: cuvsCagraExtendParams) -> cuvsCagraExtendParams {
        cuvsCagraExtendParams {
            max_chunk_size: crate::settings::set_or(self.max_chunk_size, defaults.max_chunk_size),
        }
    }

    fn apply(self, defaults: cuvsCagraExtendParams) -> (r: cuvsCagraExtendParams)
        ensures
            r == self.overridden(defaults),
    {
        cuvsCagraExtendParams {
            max_chunk_size: choose_setting(self.max_chunk_size, defaults.max_chunk_size),
        }
    }
}

/// Parameters for extending a CAGRA index with additional vectors.
#[derive(Debug)]
pub struct ExtendParams {
    pub handle: usize,
    pub record: cuvsCagraExtendParams,
}

impl ExtendParams {
    /// Settings of which none is given yet.
    pub fn builder() -> (r: ExtendParamsBuilder)
        ensures
            r == (ExtendParamsBuilder {
                max_chunk_size: None,
            }),
    {
        ExtendParamsBuilder {
            max_chunk_size: None,
        }
    }

    /// Takes over a record that holds the library's defaults.
    pub fn try_new(created: Result<Created<cuvsCagraExtendParams>, LibraryError>) -> (r: Result<ExtendParams, CagraError>)
        ensures
            match created {
                Ok(c) => r matches Ok(params) && params.handle == c.handle && params.record == c.record,
                Err(e) => r == Err::<ExtendParams, CagraError>(CagraError::Library(e)),
            },
    {
        match created {
            Ok(c) => Ok(ExtendParams { handle: c.handle, record: c.record }),
            Err(e) => Err(CagraError::from(e)),
        }
    }

    /// Takes over a record and puts the settings into it.
    pub fn new(options: ExtendParamsBuilder, created: Result<Created<cuvsCagraExtendParams>, LibraryError>) -> (r: Result<ExtendParams, CagraError>)
        ensures
            match created {
                Err(e) => r == Err::<ExtendParams, CagraError>(CagraError::Library(e)),
                Ok(c) => r matches Ok(params) && params.handle == c.handle && params.record == options.overridden(
                    c.record,
                ),
            },
    {
        let mut params = match ExtendParams::try_new(created) {
            Ok(params) => params,
            Err(e) => return Err(e),
        };
        params.record = options.apply(params.record);
        Ok(params)
    }

    /// Address of the record.
    pub fn handle(&self) -> (r: usize)
        ensures
            r == self.handle,
    {
        self.handle
    }

    /// The call that gives the record back. It ends the parameters, so that
    /// there is one.
    pub fn teardown(self) -> (r: Call<'static>)
        ensures
            r == (Call::ParamsDestroy { kind: ParamsKind::CagraExtend, params: self.handle }),
    {
        Call::ParamsDestroy { kind: ParamsKind::CagraExtend, params: self.handle }
    }
}

/// A setting that is not given leaves its field as the library made it.
pub proof fn unset_extend_params_keep_defaults(options: ExtendParamsBuilder, defaults: cuvsCagraExtendParams)
    ensures
        options.max_chunk_size is None ==> options.overridden(defaults).max_chunk_size == defaults.max_chunk_size,
{
}

} // verus!

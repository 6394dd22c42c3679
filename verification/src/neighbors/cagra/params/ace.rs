//! Parameters of the ACE graph build.

use vstd::prelude::*;

use crate::binary::Binary64;
use crate::call::{Call, ParamsKind};
use crate::error::LibraryError;
use crate::ffi::{cuvsAceParams, Created};
use crate::neighbors::cagra::CagraError;
use crate::path::CPath;
use crate::release::{release_made, Refused};
use crate::settings::choose_setting;

verus! {

/// Settings of [`AceParams`]; one that is not given keeps the library's default.
#[derive(Debug)]
pub struct AceParamsBuilder {
    pub npartitions: Option<usize>,
    pub ef_construction: Option<usize>,
    /// The bytes of a directory name.
    pub build_dir: Option<Vec<u8>>,
    pub use_disk: Option<bool>,
    pub max_host_memory_gb: Option<Binary64>,
    pub max_gpu_memory_gb: Option<Binary64>,
}

impl AceParamsBuilder {
    /// The record with each given setting in place of its default. The build
    /// directory is set by a call of its own.
    pub open spec fn overridden(self, defaults: cuvsAceParams) -> cuvsAceParams {
        cuvsAceParams {
            npartitions: crate::settings::set_or(self.npartitions, defaults.npartitions),
            ef_construction: crate::settings::set_or(self.ef_construction, defaults.ef_construction),
            use_disk: crate::settings::set_or(self.use_disk, defaults.use_disk),
            max_host_memory_gb: crate::settings::set_or(self.max_host_memory_gb, defaults.max_host_memory_gb),
            max_gpu_memory_gb: crate::settings::set_or(self.max_gpu_memory_gb, defaults.max_gpu_memory_gb),
            build_dir: defaults.build_dir,
        }
    }
}

/// Parameters for the ACE (Augmented Core Extraction) graph build.
///
/// ACE builds indices for datasets too large to fit in GPU memory by
/// partitioning the data, building sub-indices and merging the graphs.
#[derive(Debug)]
pub struct AceParams {
    pub handle: usize,
    pub record: cuvsAceParams,
}

/// ACE parameters with their settings, and the call that is still due where a
/// build directory was given.
#[derive(Debug)]
pub struct AceSetup {
    pub params: AceParams,
    pub set_build_dir: Option<Call<'static>>,
}

impl AceSetup {
    /// The parameters come from this record and these settings, and the
    /// directory, if any, is handed to the C library.
    pub open spec fn configures(self, options: AceParamsBuilder, created: Created<cuvsAceParams>) -> bool {
        &&& self.params.handle == created.handle
        &&& self.params.record == options.overridden(created.record)
        &&& match options.build_dir {
            None => self.set_build_dir is None,
            Some(dir) => {
                &&& self.set_build_dir matches Some(Call::AceParamsSetBuildDir { params, path })
                &&& params == created.handle
                &&& path@ == dir@.push(0)
            },
        }
    }
}

impl AceParams {
    /// Settings of which none is given yet.
    pub fn builder() -> (r: AceParamsBuilder)
        ensures
            r == (AceParamsBuilder {
                npartitions: None,
                ef_construction: None,
                build_dir: None,
                use_disk: None,
                max_host_memory_gb: None,
                max_gpu_memory_gb: None,
            }),
    {
        AceParamsBuilder {
            npartitions: None,
            ef_construction: None,
            build_dir: None,
            use_disk: None,
            max_host_memory_gb: None,
            max_gpu_memory_gb: None,
        }
    }

    /// Takes over a record that holds the library's defaults.
    pub fn try_new(created: Result<Created<cuvsAceParams>, LibraryError>) -> (r: Result<AceParams, CagraError>)
        ensures
            match created {
                Ok(c) => r == Ok::<AceParams, CagraError>(AceParams { handle: c.handle, record: c.record }),
                Err(e) => r == Err::<AceParams, CagraError>(CagraError::Library(e)),
            },
    {
        match created {
            Ok(c) => Ok(AceParams { handle: c.handle, record: c.record }),
            Err(e) => Err(CagraError::from(e)),
        }
    }

    /// Takes over a record, puts the settings into it, and prepares the call
    /// that sets the build directory.
    pub fn new(options: AceParamsBuilder, created: Result<Created<cuvsAceParams>, LibraryError>) -> (r: Result<
        AceSetup,
        Refused<CagraError>,
    >)
        ensures
            match created {
                Err(e) => r matches Err(refused) && refused.error == CagraError::Library(e),
                Ok(c) => match options.build_dir {
                    Some(dir) if !crate::path::nul_free(dir@) => {
                        r matches Err(refused) && refused.error matches CagraError::InvalidPath(e) && e.of(dir@)
                    },
                    _ => r matches Ok(setup) && setup.configures(options, c),
                },
            },
            r matches Err(refused) ==> refused.calls@ == crate::release::made(ParamsKind::Ace, created),
    {
        let calls = release_made(ParamsKind::Ace, &created);
        let mut params = match AceParams::try_new(created) {
            Ok(params) => params,
            Err(error) => return Err(Refused { error, calls }),
        };
        let defaults = params.record;
        params.record = cuvsAceParams {
            npartitions: choose_setting(options.npartitions, defaults.npartitions),
            ef_construction: choose_setting(options.ef_construction, defaults.ef_construction),
            use_disk: choose_setting(options.use_disk, defaults.use_disk),
            max_host_memory_gb: choose_setting(options.max_host_memory_gb, defaults.max_host_memory_gb),
            max_gpu_memory_gb: choose_setting(options.max_gpu_memory_gb, defaults.max_gpu_memory_gb),
            build_dir: defaults.build_dir,
        };
        match &options.build_dir {
            None => Ok(AceSetup { params, set_build_dir: None }),
            Some(dir) => match CPath::new(dir.as_slice()) {
                Ok(path) => {
                    let call = Call::AceParamsSetBuildDir { params: params.handle, path };
                    Ok(AceSetup { params, set_build_dir: Some(call) })
                },
                Err(e) => Err(Refused { error: CagraError::from(e), calls }),
            },
        }
    }

    /// The parameters, once the build directory has been set.
    pub fn build_dir_set(self, reply: Result<(), LibraryError>) -> (r: Result<AceParams, Refused<CagraError>>)
        ensures
            match reply {
                Ok(()) => r == Ok::<AceParams, Refused<CagraError>>(self),
                Err(e) => r matches Err(refused) && refused.error == CagraError::Library(e) && refused.calls@ == seq![
                    Call::ParamsDestroy { kind: ParamsKind::Ace, params: self.handle },
                ],
            },
    {
        match reply {
            Ok(()) => Ok(self),
            Err(e) => {
                let mut calls: Vec<Call<'static>> = Vec::new();
                calls.push(self.teardown());
                Err(Refused { error: CagraError::from(e), calls })
            },
        }
    }

    /// Address of the record.
    pub fn handle(&self) -> (r: usize)
        ensures
            r == self.handle,
    {
        self.handle
    }

    /// The call that gives the record back. It ends the parameters, so that
    /// there is one.
    pub fn teardown(self) -> (r: Call<'static>)
        ensures
            r == (Call::ParamsDestroy { kind: ParamsKind::Ace, params: self.handle }),
    {
        Call::ParamsDestroy { kind: ParamsKind::Ace, params: self.handle }
    }
}

/// A setting that is not given leaves its field as the library made it.
pub proof fn unset_ace_params_keep_defaults(options: AceParamsBuilder, defaults: cuvsAceParams)
    ensures
        options.npartitions is None ==> options.overridden(defaults).npartitions == defaults.npartitions,
        options.ef_construction is None ==> options.overridden(defaults).ef_construction == defaults.ef_construction,
        options.use_disk is None ==> options.overridden(defaults).use_disk == defaults.use_disk,
        options.max_host_memory_gb is None ==> options.overridden(defaults).max_host_memory_gb
            == defaults.max_host_memory_gb,
        options.max_gpu_memory_gb is None ==> options.overridden(defaults).max_gpu_memory_gb
            == defaults.max_gpu_memory_gb,
{
}

} // verus!

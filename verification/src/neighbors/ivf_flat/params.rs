//! Parameters for IVF-Flat index build and search.
//!
//! Each parameter type owns a record of the C library. A setting that is not
//! given keeps the default that the library put into the record.

use vstd::prelude::*;
use vstd::string::*;

use crate::binary::Shown64;
use crate::call::{Call, ParamsKind};
use crate::distance::DistanceType;
use crate::error::LibraryError;
use crate::ffi::{cuvsDistanceType, cuvsIvfFlatIndexParams, cuvsIvfFlatSearchParams, Created};
use crate::release::{release_made, Refused};
use crate::settings::{choose_setting, fraction};
use crate::text::with_text;

use super::IvfFlatError;

verus! {

/// Settings of [`IndexParams`]; one that is not given keeps the library's default.
#[derive(Debug)]
pub struct IndexParamsBuilder {
    pub metric: Option<DistanceType>,
    pub n_lists: Option<u32>,
    pub kmeans_n_iters: Option<u32>,
    pub kmeans_trainset_fraction: Option<Shown64>,
    pub add_data_on_build: Option<bool>,
    pub adaptive_centers: Option<bool>,
    pub conservative_memory_allocation: Option<bool>,
}

impl IndexParamsBuilder {
    /// The record with each given setting in place of its default.
    pub open spec fn overridden(self, defaults: cuvsIvfFlatIndexParams) -> cuvsIvfFlatIndexParams {
        cuvsIvfFlatIndexParams {
            metric: match self.metric {
                Some(v) => v.code(),
                None => defaults.metric,
            },
            n_lists: crate::settings::set_or(self.n_lists, defaults.n_lists),
            kmeans_n_iters: crate::settings::set_or(self.kmeans_n_iters, defaults.kmeans_n_iters),
            kmeans_trainset_fraction: match self.kmeans_trainset_fraction {
                Some(v) => v.value,
                None => defaults.kmeans_trainset_fraction,
            },
            add_data_on_build: crate::settings::set_or(self.add_data_on_build, defaults.add_data_on_build),
            adaptive_centers: crate::settings::set_or(self.adaptive_centers, defaults.adaptive_centers),
            conservative_memory_allocation: crate::settings::set_or(self.conservative_memory_allocation, defaults.conservative_memory_allocation),
            metric_arg: match self.metric {
                Some(v) => v.argument(),
                None => defaults.metric_arg,
            },
        }
    }

    fn apply(self, defaults: cuvsIvfFlatIndexParams) -> (r: cuvsIvfFlatIndexParams)
        ensures
            r == self.overridden(defaults),
    {
        cuvsIvfFlatIndexParams {
            metric: match self.metric {
                Some(v) => cuvsDistanceType::from(v),
                None => defaults.metric,
            },
            n_lists: choose_setting(self.n_lists, defaults.n_lists),
            kmeans_n_iters: choose_setting(self.kmeans_n_iters, defaults.kmeans_n_iters),
            kmeans_trainset_fraction: match self.kmeans_trainset_fraction {
                Some(v) => v.value,
                None => defaults.kmeans_trainset_fraction,
            },
            add_data_on_build: choose_setting(self.add_data_on_build, defaults.add_data_on_build),
            adaptive_centers: choose_setting(self.adaptive_centers, defaults.adaptive_centers),
            conservative_memory_allocation: choose_setting(self.conservative_memory_allocation, defaults.conservative_memory_allocation),
            metric_arg: match self.metric {
                Some(v) => v.metric_arg(),
                None => defaults.metric_arg,
            },
        }
    }

    /// Why the settings are refused, where they are. The first rule that is
    /// broken decides.
    pub open spec fn violation(self) -> Option<Seq<char>> {
        if self.n_lists == Some(0u32) {
            Some("n_lists must be > 0"@)
        } else if self.kmeans_trainset_fraction is Some && !crate::settings::is_fraction(
            self.kmeans_trainset_fraction->0.value,
        ) {
            Some("kmeans_trainset_fraction must be in (0, 1], got "@ + self.kmeans_trainset_fraction->0.text@)
        } else {
            None
        }
    }
}

/// Parameters for building an IVF-Flat index.
#[derive(Debug)]
pub struct IndexParams {
    pub handle: usize,
    pub record: cuvsIvfFlatIndexParams,
}

impl IndexParams {
    /// Settings of which none is given yet.
    pub fn builder() -> (r: IndexParamsBuilder)
        ensures
            r == (IndexParamsBuilder {
                metric: None,
                n_lists: None,
                kmeans_n_iters: None,
                kmeans_trainset_fraction: None,
                add_data_on_build: None,
                adaptive_centers: None,
                conservative_memory_allocation: None,
            }),
    {
        IndexParamsBuilder {
            metric: None,
            n_lists: None,
            kmeans_n_iters: None,
            kmeans_trainset_fraction: None,
            add_data_on_build: None,
            adaptive_centers: None,
            conservative_memory_allocation: None,
        }
    }

    /// Takes over a record that holds the library's defaults.
    pub fn try_new(created: Result<Created<cuvsIvfFlatIndexParams>, LibraryError>) -> (r: Result<IndexParams, IvfFlatError>)
        ensures
            match created {
                Ok(c) => r matches Ok(params) && params.handle == c.handle && params.record == c.record,
                Err(e) => r == Err::<IndexParams, IvfFlatError>(IvfFlatError::Library(e)),
            },
    {
        match created {
            Ok(c) => Ok(IndexParams { handle: c.handle, record: c.record }),
            Err(e) => Err(IvfFlatError::from(e)),
        }
    }

    /// Checks the settings before a record is made for them.
    pub fn validate(options: &IndexParamsBuilder) -> (r: Result<(), IvfFlatError>)
        ensures
            match options.violation() {
                Some(text) => r matches Err(IvfFlatError::Validation(s)) && s@ == text,
                None => r is Ok,
            },
    {
        match options.n_lists {
            Some(n) => {
                if n == 0 {
                    return Err(IvfFlatError::Validation(String::from_str("n_lists must be > 0")));
                }
            },
            None => {},
        }
        match &options.kmeans_trainset_fraction {
            Some(frac) => {
                if !fraction(frac.value) {
                    return Err(IvfFlatError::Validation(with_text("kmeans_trainset_fraction must be in (0, 1], got ", frac.text.as_str())));
                }
            },
            None => {},
        }
        Ok(())
    }

    /// Checks the settings, then takes over a record and puts them into it.
    pub fn new(options: IndexParamsBuilder, created: Result<Created<cuvsIvfFlatIndexParams>, LibraryError>) -> (r: Result<IndexParams, Refused<IvfFlatError>>)
        ensures
            match options.violation() {
                Some(text) => r matches Err(refused) && refused.error matches IvfFlatError::Validation(s) && s@ == text,
                None => match created {
                    Err(e) => r matches Err(refused) && refused.error == IvfFlatError::Library(e),
                    Ok(c) => r matches Ok(params) && params.handle == c.handle && params.record == options.overridden(
                        c.record,
                    ),
                },
            },
            r matches Err(refused) ==> refused.calls@ == crate::release::made(ParamsKind::IvfFlatIndex, created),
    {
        let calls = release_made(ParamsKind::IvfFlatIndex, &created);
        match IndexParams::validate(&options) {
            Ok(()) => {},
            Err(error) => return Err(Refused { error, calls }),
        }
        let mut params = match IndexParams::try_new(created) {
            Ok(params) => params,
            Err(error) => return Err(Refused { error, calls }),
        };
        params.record = options.apply(params.record);
        Ok(params)
    }

    /// Address of the record.
    pub fn handle(&self) -> (r: usize)
        ensures
            r == self.handle,
    {
        self.handle
    }

    /// The call that gives the record back. It ends the parameters, so that
    /// there is one.
    pub fn teardown(self) -> (r: Call<'static>)
        ensures
            r == (Call::ParamsDestroy { kind: ParamsKind::IvfFlatIndex, params: self.handle }),
    {
        Call::ParamsDestroy { kind: ParamsKind::IvfFlatIndex, params: self.handle }
    }
}

/// A setting that is not given leaves its field as the library made it.
pub proof fn unset_index_params_keep_defaults(options: IndexParamsBuilder, defaults: cuvsIvfFlatIndexParams)
    ensures
        options.metric is None ==> options.overridden(defaults).metric == defaults.metric,
        options.n_lists is None ==> options.overridden(defaults).n_lists == defaults.n_lists,
        options.kmeans_n_iters is None ==> options.overridden(defaults).kmeans_n_iters == defaults.kmeans_n_iters,
        options.kmeans_trainset_fraction is None ==> options.overridden(defaults).kmeans_trainset_fraction == defaults.kmeans_trainset_fraction,
        options.add_data_on_build is None ==> options.overridden(defaults).add_data_on_build == defaults.add_data_on_build,
        options.adaptive_centers is None ==> options.overridden(defaults).adaptive_centers == defaults.adaptive_centers,
        options.conservative_memory_allocation is None ==> options.overridden(defaults).conservative_memory_allocation == defaults.conservative_memory_allocation,
{
}

/// Settings of [`SearchParams`]; one that is not given keeps the library's default.
#[derive(Debug)]
pub struct SearchParamsBuilder {
    pub n_probes: Option<u32>,
}

impl SearchParamsBuilder {
    /// The record with each given setting in place of its default.
    pub open spec fn overridden(self, defaults: cuvsIvfFlatSearchParams) -> cuvsIvfFlatSearchParams {
        cuvsIvfFlatSearchParams {
            n_probes: crate::settings::set_or(self.n_probes, defaults.n_probes),
        }
    }

    fn apply(self, defaults: cuvsIvfFlatSearchParams) -> (r: cuvsIvfFlatSearchParams)
        ensures
            r == self.overridden(defaults),
    {
        cuvsIvfFlatSearchParams {
            n_probes: choose_setting(self.n_probes, defaults.n_probes),
        }
    }

    /// Why the settings are refused, where they are.
    pub open spec fn violation(self) -> Option<Seq<char>> {
        if self.n_probes == Some(0u32) {
            Some("n_probes must be > 0"@)
        } else {
            None
        }
    }
}

/// Parameters for searching an IVF-Flat index.
#[derive(Debug)]
pub struct SearchParams {
    pub handle: usize,
    pub record: cuvsIvfFlatSearchParams,
}

impl SearchParams {
    /// Settings of which none is given yet.
    pub fn builder() -> (r: SearchParamsBuilder)
        ensures
            r == (SearchParamsBuilder {
                n_probes: None,
            }),
    {
        SearchParamsBuilder {
            n_probes: None,
        }
    }

    /// Takes over a record that holds the library's defaults.
    pub fn try_new(created: Result<Created<cuvsIvfFlatSearchParams>, LibraryError>) -> (r: Result<SearchParams, IvfFlatError>)
        ensures
            match created {
                Ok(c) => r matches Ok(params) && params.handle == c.handle && params.record == c.record,
                Err(e) => r == Err::<SearchParams, IvfFlatError>(IvfFlatError::Library(e)),
            },
    {
        match created {
            Ok(c) => Ok(SearchParams { handle: c.handle, record: c.record }),
            Err(e) => Err(IvfFlatError::from(e)),
        }
    }

    /// Checks the settings before a record is made for them.
    pub fn validate(options: &SearchParamsBuilder) -> (r: Result<(), IvfFlatError>)
        ensures
            match options.violation() {
                Some(text) => r matches Err(IvfFlatError::Validation(s)) && s@ == text,
                None => r is Ok,
            },
    {
        match options.n_probes {
            Some(n) => {
                if n == 0 {
                    return Err(IvfFlatError::Validation(String::from_str("n_probes must be > 0")));
                }
            },
            None => {},
        }
        Ok(())
    }

    /// Checks the settings, then takes over a record and puts them into it.
    pub fn new(options: SearchParamsBuilder, created: Result<Created<cuvsIvfFlatSearchParams>, LibraryError>) -> (r: Result<SearchParams, Refused<IvfFlatError>>)
        ensures
            match options.violation() {
                Some(text) => r matches Err(refused) && refused.error matches IvfFlatError::Validation(s) && s@ == text,
                None => match created {
                    Err(e) => r matches Err(refused) && refused.error == IvfFlatError::Library(e),
                    Ok(c) => r matches Ok(params) && params.handle == c.handle && params.record == options.overridden(
                        c.record,
                    ),
                },
            },
            r matches Err(refused) ==> refused.calls@ == crate::release::made(ParamsKind::IvfFlatSearch, created),
    {
        let calls = release_made(ParamsKind::IvfFlatSearch, &created);
        match SearchParams::validate(&options) {
            Ok(()) => {},
            Err(error) => return Err(Refused { error, calls }),
        }
        let mut params = match SearchParams::try_new(created) {
            Ok(params) => params,
            Err(error) => return Err(Refused { error, calls }),
        };
        params.record = options.apply(params.record);
        Ok(params)
    }

    /// Address of the record.
    pub fn handle(&self) -> (r: usize)
        ensures
            r == self.handle,
    {
        self.handle
    }

    /// The call that gives the record back. It ends the parameters, so that
    /// there is one.
    pub fn teardown(self) -> (r: Call<'static>)
        ensures
            r == (Call::ParamsDestroy { kind: ParamsKind::IvfFlatSearch, params: self.handle }),
    {
        Call::ParamsDestroy { kind: ParamsKind::IvfFlatSearch, params: self.handle }
    }
}

/// A setting that is not given leaves its field as the library made it.
pub proof fn unset_search_params_keep_defaults(options: SearchParamsBuilder, defaults: cuvsIvfFlatSearchParams)
    ensures
        options.n_probes is None ==> options.overridden(defaults).n_probes == defaults.n_probes,
{
}

} // verus!

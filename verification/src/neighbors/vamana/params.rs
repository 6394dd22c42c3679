//! Parameters for building a Vamana index.
//!
//! The parameter type owns a record of the C library. A setting that is not
//! given keeps the default that the library put into the record.

use vstd::prelude::*;
use vstd::string::*;

use crate::binary::{Binary32, Shown32, ONE_32};
use crate::call::{Call, ParamsKind};
use crate::distance::DistanceType;
use crate::error::LibraryError;
use crate::ffi::{cuvsDistanceType, cuvsVamanaIndexParams, Created};
use crate::release::{release_made, Refused};
use crate::settings::choose_setting;
use crate::text::{push_decimal, with_decimal, with_text};

use super::VamanaError;

verus! {

/// Settings of [`IndexParams`]; one that is not given keeps the library's default.
#[derive(Debug)]
pub struct IndexParamsBuilder {
    pub metric: Option<DistanceType>,
    pub graph_degree: Option<u32>,
    pub visited_size: Option<u32>,
    pub vamana_iters: Option<Shown32>,
    pub alpha: Option<Binary32>,
    pub max_fraction: Option<Binary32>,
    pub batch_base: Option<Binary32>,
    pub queue_size: Option<u32>,
    pub reverse_batchsize: Option<u32>,
}

impl IndexParamsBuilder {
    /// The record with each given setting in place of its default.
    pub open spec fn overridden(self, defaults: cuvsVamanaIndexParams) -> cuvsVamanaIndexParams {
        cuvsVamanaIndexParams {
            metric: match self.metric {
                Some(v) => v.code(),
                None => defaults.metric,
            },
            graph_degree: crate::settings::set_or(self.graph_degree, defaults.graph_degree),
            visited_size: crate::settings::set_or(self.visited_size, defaults.visited_size),
            vamana_iters: crate::settings::set_or(self.vamana_iters, defaults.vamana_iters),
            alpha: crate::settings::set_or(self.alpha, defaults.alpha),
            max_fraction: crate::settings::set_or(self.max_fraction, defaults.max_fraction),
            batch_base: crate::settings::set_or(self.batch_base, defaults.batch_base),
            queue_size: crate::settings::set_or(self.queue_size, defaults.queue_size),
            reverse_batchsize: crate::settings::set_or(self.reverse_batchsize, defaults.reverse_batchsize),
        }
    }

    fn apply(self, defaults: cuvsVamanaIndexParams) -> (r: cuvsVamanaIndexParams)
        ensures
            r == self.overridden(defaults),
    {
        cuvsVamanaIndexParams {
            metric: match self.metric {
                Some(v) => cuvsDistanceType::from(v),
                None => defaults.metric,
            },
            graph_degree: choose_setting(self.graph_degree, defaults.graph_degree),
            visited_size: choose_setting(self.visited_size, defaults.visited_size),
            vamana_iters: choose_setting(self.vamana_iters, defaults.vamana_iters),
            alpha: choose_setting(self.alpha, defaults.alpha),
            max_fraction: choose_setting(self.max_fraction, defaults.max_fraction),
            batch_base: choose_setting(self.batch_base, defaults.batch_base),
            queue_size: choose_setting(self.queue_size, defaults.queue_size),
            reverse_batchsize: choose_setting(self.reverse_batchsize, defaults.reverse_batchsize),
        }
    }

    /// Why the settings are refused over these defaults, where they are. The
    /// first rule that is broken decides.
    pub open spec fn violation(self, defaults: cuvsVamanaIndexParams) -> Option<Seq<char>> {
        let degree = crate::settings::set_or(self.graph_degree, defaults.graph_degree);
        let visited = crate::settings::set_or(self.visited_size, defaults.visited_size);
        let iters = crate::settings::set_or(self.vamana_iters, defaults.vamana_iters);
        if crate::settings::set_or(self.metric, DistanceType::of_code(defaults.metric)) != DistanceType::L2Expanded {
            Some("Vamana currently only supports L2Expanded metric"@)
        } else if !set![32u32, 64, 128, 256].contains(degree) {
            Some("graph_degree must be one of [32, 64, 128, 256], got "@ + crate::text::decimal(degree as nat))
        } else if visited <= degree {
            Some(
                "visited_size must be > graph_degree ("@ + crate::text::decimal(degree as nat) + "), got "@
                    + crate::text::decimal(visited as nat),
            )
        } else if !iters.value.finite() {
            Some("vamana_iters must be finite, got "@ + iters.text@)
        } else if iters.value.less(Binary32 { bits: ONE_32 }) {
            Some("vamana_iters must be >= 1.0, got "@ + iters.text@)
        } else {
            None
        }
    }
}

/// Parameters for building a Vamana index.
#[derive(Debug)]
pub struct IndexParams {
    pub handle: usize,
    pub record: cuvsVamanaIndexParams,
}

impl IndexParams {
    /// Settings of which none is given yet.
    pub fn builder() -> (r: IndexParamsBuilder)
        ensures
            r == (IndexParamsBuilder {
                metric: None,
                graph_degree: None,
                visited_size: None,
                vamana_iters: None,
                alpha: None,
                max_fraction: None,
                batch_base: None,
                queue_size: None,
                reverse_batchsize: None,
            }),
    {
        IndexParamsBuilder {
            metric: None,
            graph_degree: None,
            visited_size: None,
            vamana_iters: None,
            alpha: None,
            max_fraction: None,
            batch_base: None,
            queue_size: None,
            reverse_batchsize: None,
        }
    }

    /// Takes over a record that holds the library's defaults.
    pub fn try_new(created: Result<Created<cuvsVamanaIndexParams>, LibraryError>) -> (r: Result<IndexParams, VamanaError>)
        ensures
            match created {
                Ok(c) => r matches Ok(params) && params.handle == c.handle && params.record == c.record,
                Err(e) => r == Err::<IndexParams, VamanaError>(VamanaError::Library(e)),
            },
    {
        match created {
            Ok(c) => Ok(IndexParams { handle: c.handle, record: c.record }),
            Err(e) => Err(VamanaError::from(e)),
        }
    }

    /// Checks the settings against the defaults that they leave in place.
    pub fn validate(options: &IndexParamsBuilder, defaults: &cuvsVamanaIndexParams) -> (r: Result<(), VamanaError>)
        ensures
            match options.violation(*defaults) {
                Some(text) => r matches Err(VamanaError::Validation(s)) && s@ == text,
                None => r is Ok,
            },
    {
        let metric = choose_setting(options.metric, DistanceType::from(defaults.metric));
        let degree: u32 = choose_setting(options.graph_degree, defaults.graph_degree);
        let visited: u32 = choose_setting(options.visited_size, defaults.visited_size);
        let iters = match &options.vamana_iters {
            Some(iters) => iters,
            None => &defaults.vamana_iters,
        };
        if metric != DistanceType::L2Expanded {
            return Err(
                VamanaError::Validation(String::from_str("Vamana currently only supports L2Expanded metric")),
            );
        }
        if !(degree == 32 || degree == 64 || degree == 128 || degree == 256) {
            return Err(
                VamanaError::Validation(
                    with_decimal("graph_degree must be one of [32, 64, 128, 256], got ", degree as u64),
                ),
            );
        }
        if visited <= degree {
            let mut text = String::from_str("visited_size must be > graph_degree (");
            push_decimal(&mut text, degree as u64);
            text.append("), got ");
            push_decimal(&mut text, visited as u64);
            return Err(VamanaError::Validation(text));
        }
        if !iters.value.is_finite() {
            return Err(
                VamanaError::Validation(with_text("vamana_iters must be finite, got ", iters.text.as_str())),
            );
        }
        let one = Binary32 { bits: ONE_32 };
        if iters.value.lt(one) {
            return Err(
                VamanaError::Validation(with_text("vamana_iters must be >= 1.0, got ", iters.text.as_str())),
            );
        }
        Ok(())
    }

    /// Takes over a record, checks the settings against what it holds, and puts
    /// them into it.
    pub fn new(options: IndexParamsBuilder, created: Result<Created<cuvsVamanaIndexParams>, LibraryError>) -> (r: Result<IndexParams, Refused<VamanaError>>)
        ensures
            match created {
                Err(e) => r matches Err(refused) && refused.error == VamanaError::Library(e),
                Ok(c) => match options.violation(c.record) {
                    Some(text) => r matches Err(refused) && refused.error matches VamanaError::Validation(s) && s@ == text,
                    None => r matches Ok(params) && params.handle == c.handle && params.record == options.overridden(
                        c.record,
                    ),
                },
            },
            r matches Err(refused) ==> refused.calls@ == crate::release::made(ParamsKind::VamanaIndex, created),
    {
        let calls = release_made(ParamsKind::VamanaIndex, &created);
        let mut params = match IndexParams::try_new(created) {
            Ok(params) => params,
            Err(error) => return Err(Refused { error, calls }),
        };
        match IndexParams::validate(&options, &params.record) {
            Ok(()) => {},
            Err(error) => return Err(Refused { error, calls }),
        }
        params.record = options.apply(params.record);
        Ok(params)
    }

    /// Address of the record.
    pub fn handle(&self) -> (r: usize)
        ensures
            r == self.handle,
    {
        self.handle
    }

    /// The call that gives the record back. It ends the parameters, so that
    /// there is one.
    pub fn teardown(self) -> (r: Call<'static>)
        ensures
            r == (Call::ParamsDestroy { kind: ParamsKind::VamanaIndex, params: self.handle }),
    {
        Call::ParamsDestroy { kind: ParamsKind::VamanaIndex, params: self.handle }
    }
}

/// A setting that is not given leaves its field as the library made it.
pub proof fn unset_index_params_keep_defaults(options: IndexParamsBuilder, defaults: cuvsVamanaIndexParams)
    ensures
        options.metric is None ==> options.overridden(defaults).metric == defaults.metric,
        options.graph_degree is None ==> options.overridden(defaults).graph_degree == defaults.graph_degree,
        options.visited_size is None ==> options.overridden(defaults).visited_size == defaults.visited_size,
        options.vamana_iters is None ==> options.overridden(defaults).vamana_iters == defaults.vamana_iters,
        options.alpha is None ==> options.overridden(defaults).alpha == defaults.alpha,
        options.max_fraction is None ==> options.overridden(defaults).max_fraction == defaults.max_fraction,
        options.batch_base is None ==> options.overridden(defaults).batch_base == defaults.batch_base,
        options.queue_size is None ==> options.overridden(defaults).queue_size == defaults.queue_size,
        options.reverse_batchsize is None ==> options.overridden(defaults).reverse_batchsize == defaults.reverse_batchsize,
{
}

} // verus!

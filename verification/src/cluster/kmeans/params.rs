//! Parameters of k-means.
//!
//! The parameter type owns a record of the C library. A setting that is not
//! given keeps the default that the library put into the record.

use vstd::prelude::*;
use vstd::string::*;

use crate::binary::Binary64;
use crate::call::{Call, ParamsKind};
use crate::distance::DistanceType;
use crate::error::LibraryError;
use crate::ffi::{cuvsDistanceType, cuvsKMeansInitMethod, cuvsKMeansParams, Created};
use crate::release::{release_made, Refused};
use crate::settings::choose_setting;

use super::KMeansError;

verus! {

/// Choice of the initial centers.
#[derive(Debug, Copy, Clone, Hash, PartialEq, Eq, Structural)]
pub enum KMeansInitMethod {
    /// Sample the centers by the k-means++ algorithm.
    KMeansPlusPlus,
    /// Sample the centers uniformly at random.
    Random,
    /// Take the centers that the caller provides.
    Array,
}

impl KMeansInitMethod {
    /// The C library's name of the choice.
    pub open spec fn code(self) -> cuvsKMeansInitMethod {
        match self {
            KMeansInitMethod::KMeansPlusPlus => cuvsKMeansInitMethod::KMeansPlusPlus,
            KMeansInitMethod::Random => cuvsKMeansInitMethod::Random,
            KMeansInitMethod::Array => cuvsKMeansInitMethod::Array,
        }
    }
}

impl vstd::std_specs::convert::FromSpecImpl<KMeansInitMethod> for cuvsKMeansInitMethod {
    open spec fn obeys_from_spec() -> bool {
        true
    }

    open spec fn from_spec(v: KMeansInitMethod) -> cuvsKMeansInitMethod {
        v.code()
    }
}

impl From<KMeansInitMethod> for cuvsKMeansInitMethod {
    fn from(v: KMeansInitMethod) -> (r: cuvsKMeansInitMethod) {
        match v {
            KMeansInitMethod::KMeansPlusPlus => cuvsKMeansInitMethod::KMeansPlusPlus,
            KMeansInitMethod::Random => cuvsKMeansInitMethod::Random,
            KMeansInitMethod::Array => cuvsKMeansInitMethod::Array,
        }
    }
}

/// Settings of [`Params`]; one that is not given keeps the library's default.
#[derive(Debug)]
pub struct ParamsBuilder {
    pub metric: Option<DistanceType>,
    pub n_clusters: Option<i32>,
    pub init: Option<KMeansInitMethod>,
    pub max_iter: Option<i32>,
    pub tol: Option<Binary64>,
    pub n_init: Option<i32>,
    pub oversampling_factor: Option<Binary64>,
    pub batch_samples: Option<i32>,
    pub batch_centroids: Option<i32>,
    pub inertia_check: Option<bool>,
    pub hierarchical: Option<bool>,
    pub hierarchical_n_iters: Option<i32>,
    pub streaming_batch_size: Option<i64>,
}

impl ParamsBuilder {
    /// The record with each given setting in place of its default.
    pub open spec fn overridden(self, defaults: cuvsKMeansParams) -> cuvsKMeansParams {
        cuvsKMeansParams {
            metric: match self.metric {
                Some(v) => v.code(),
                None => defaults.metric,
            },
            n_clusters: crate::settings::set_or(self.n_clusters, defaults.n_clusters),
            init: match self.init {
                Some(v) => v.code(),
                None => defaults.init,
            },
            max_iter: crate::settings::set_or(self.max_iter, defaults.max_iter),
            tol: crate::settings::set_or(self.tol, defaults.tol),
            n_init: crate::settings::set_or(self.n_init, defaults.n_init),
            oversampling_factor: crate::settings::set_or(self.oversampling_factor, defaults.oversampling_factor),
            batch_samples: crate::settings::set_or(self.batch_samples, defaults.batch_samples),
            batch_centroids: crate::settings::set_or(self.batch_centroids, defaults.batch_centroids),
            inertia_check: crate::settings::set_or(self.inertia_check, defaults.inertia_check),
            hierarchical: crate::settings::set_or(self.hierarchical, defaults.hierarchical),
            hierarchical_n_iters: crate::settings::set_or(self.hierarchical_n_iters, defaults.hierarchical_n_iters),
            streaming_batch_size: crate::settings::set_or(self.streaming_batch_size, defaults.streaming_batch_size),
        }
    }

    fn apply(self, defaults: cuvsKMeansParams) -> (r: cuvsKMeansParams)
        ensures
            r == self.overridden(defaults),
    {
        cuvsKMeansParams {
            metric: match self.metric {
                Some(v) => cuvsDistanceType::from(v),
                None => defaults.metric,
            },
            n_clusters: choose_setting(self.n_clusters, defaults.n_clusters),
            init: match self.init {
                Some(v) => cuvsKMeansInitMethod::from(v),
                None => defaults.init,
            },
            max_iter: choose_setting(self.max_iter, defaults.max_iter),
            tol: choose_setting(self.tol, defaults.tol),
            n_init: choose_setting(self.n_init, defaults.n_init),
            oversampling_factor: choose_setting(self.oversampling_factor, defaults.oversampling_factor),
            batch_samples: choose_setting(self.batch_samples, defaults.batch_samples),
            batch_centroids: choose_setting(self.batch_centroids, defaults.batch_centroids),
            inertia_check: choose_setting(self.inertia_check, defaults.inertia_check),
            hierarchical: choose_setting(self.hierarchical, defaults.hierarchical),
            hierarchical_n_iters: choose_setting(self.hierarchical_n_iters, defaults.hierarchical_n_iters),
            streaming_batch_size: choose_setting(self.streaming_batch_size, defaults.streaming_batch_size),
        }
    }

    /// Why the settings are refused, where they are. The first rule that is
    /// broken decides.
    pub open spec fn violation(self) -> Option<Seq<char>> {
        if self.n_clusters is Some && self.n_clusters->0 <= 0 {
            Some("n_clusters must be > 0"@)
        } else if self.max_iter is Some && self.max_iter->0 < 0 {
            Some("max_iter must be >= 0"@)
        } else if self.n_init is Some && self.n_init->0 <= 0 {
            Some("n_init must be > 0"@)
        } else if self.hierarchical_n_iters is Some && self.hierarchical_n_iters->0 < 0 {
            Some("hierarchical_n_iters must be >= 0"@)
        } else if self.streaming_batch_size is Some && self.streaming_batch_size->0 < 0 {
            Some("streaming_batch_size must be >= 0"@)
        } else {
            None
        }
    }
}

/// Parameters of k-means.
#[derive(Debug)]
pub struct Params {
    pub handle: usize,
    pub record: cuvsKMeansParams,
}

impl Params {
    /// Settings of which none is given yet.
    pub fn builder() -> (r: ParamsBuilder)
        ensures
            r == (ParamsBuilder {
                metric: None,
                n_clusters: None,
                init: None,
                max_iter: None,
                tol: None,
                n_init: None,
                oversampling_factor: None,
                batch_samples: None,
                batch_centroids: None,
                inertia_check: None,
                hierarchical: None,
                hierarchical_n_iters: None,
                streaming_batch_size: None,
            }),
    {
        ParamsBuilder {
            metric: None,
            n_clusters: None,
            init: None,
            max_iter: None,
            tol: None,
            n_init: None,
            oversampling_factor: None,
            batch_samples: None,
            batch_centroids: None,
            inertia_check: None,
            hierarchical: None,
            hierarchical_n_iters: None,
            streaming_batch_size: None,
        }
    }

    /// Takes over a record that holds the library's defaults.
    fn try_new(created: Result<Created<cuvsKMeansParams>, LibraryError>) -> (r: Result<Params, KMeansError>)
        ensures
            match created {
                Ok(c) => r matches Ok(params) && params.handle == c.handle && params.record == c.record,
                Err(e) => r == Err::<Params, KMeansError>(KMeansError::Library(e)),
            },
    {
        match created {
            Ok(c) => Ok(Params { handle: c.handle, record: c.record }),
            Err(e) => Err(KMeansError::from(e)),
        }
    }

    /// Checks the settings before a record is made for them.
    pub fn validate(options: &ParamsBuilder) -> (r: Result<(), KMeansError>)
        ensures
            match options.violation() {
                Some(text) => r matches Err(KMeansError::Validation(s)) && s@ == text,
                None => r is Ok,
            },
    {
        match options.n_clusters {
            Some(n) => {
                if n <= 0 {
                    return Err(KMeansError::Validation(String::from_str("n_clusters must be > 0")));
                }
            },
            None => {},
        }
        match options.max_iter {
            Some(n) => {
                if n < 0 {
                    return Err(KMeansError::Validation(String::from_str("max_iter must be >= 0")));
                }
            },
            None => {},
        }
        match options.n_init {
            Some(n) => {
                if n <= 0 {
                    return Err(KMeansError::Validation(String::from_str("n_init must be > 0")));
                }
            },
            None => {},
        }
        match options.hierarchical_n_iters {
            Some(n) => {
                if n < 0 {
                    return Err(KMeansError::Validation(String::from_str("hierarchical_n_iters must be >= 0")));
                }
            },
            None => {},
        }
        match options.streaming_batch_size {
            Some(n) => {
                if n < 0 {
                    return Err(KMeansError::Validation(String::from_str("streaming_batch_size must be >= 0")));
                }
            },
            None => {},
        }
        Ok(())
    }

    /// Checks the settings, then takes over a record and puts them into it.
    pub fn new(options: ParamsBuilder, created: Result<Created<cuvsKMeansParams>, LibraryError>) -> (r: Result<Params, Refused<KMeansError>>)
        ensures
            match options.violation() {
                Some(text) => r matches Err(refused) && refused.error matches KMeansError::Validation(s) && s@ == text,
                None => match created {
                    Err(e) => r matches Err(refused) && refused.error == KMeansError::Library(e),
                    Ok(c) => r matches Ok(params) && params.handle == c.handle && params.record == options.overridden(
                        c.record,
                    ),
                },
            },
            r matches Err(refused) ==> refused.calls@ == crate::release::made(ParamsKind::KMeans, created),
    {
        let calls = release_made(ParamsKind::KMeans, &created);
        match Params::validate(&options) {
            Ok(()) => {},
            Err(error) => return Err(Refused { error, calls }),
        }
        let mut params = match Params::try_new(created) {
            Ok(params) => params,
            Err(error) => return Err(Refused { error, calls }),
        };
        params.record = options.apply(params.record);
        Ok(params)
    }

    /// The call that gives the record back, unless that has been done.
    pub fn teardown(&mut self) -> (r: Option<Call<'static>>)
        ensures
            final(self).handle == 0,
            final(self).record == old(self).record,
            r == if old(self).handle == 0 {
                None
            } else {
                Some(Call::ParamsDestroy { kind: ParamsKind::KMeans, params: old(self).handle })
            },
    {
        if self.handle == 0 {
            return None;
        }
        let call = Call::ParamsDestroy { kind: ParamsKind::KMeans, params: self.handle };
        self.handle = 0;
        Some(call)
    }

    /// Address of the record.
    pub fn as_ptr(&self) -> (r: usize)
        ensures
            r == self.handle,
    {
        self.handle
    }
}

/// A setting that is not given leaves its field as the library made it.
pub proof fn unset_params_keep_defaults(options: ParamsBuilder, defaults: cuvsKMeansParams)
    ensures
        options.metric is None ==> options.overridden(defaults).metric == defaults.metric,
        options.n_clusters is None ==> options.overridden(defaults).n_clusters == defaults.n_clusters,
        options.init is None ==> options.overridden(defaults).init == defaults.init,
        options.max_iter is None ==> options.overridden(defaults).max_iter == defaults.max_iter,
        options.tol is None ==> options.overridden(defaults).tol == defaults.tol,
        options.n_init is None ==> options.overridden(defaults).n_init == defaults.n_init,
        options.oversampling_factor is None ==> options.overridden(defaults).oversampling_factor == defaults.oversampling_factor,
        options.batch_samples is None ==> options.overridden(defaults).batch_samples == defaults.batch_samples,
        options.batch_centroids is None ==> options.overridden(defaults).batch_centroids == defaults.batch_centroids,
        options.inertia_check is None ==> options.overridden(defaults).inertia_check == defaults.inertia_check,
        options.hierarchical is None ==> options.overridden(defaults).hierarchical == defaults.hierarchical,
        options.hierarchical_n_iters is None ==> options.overridden(defaults).hierarchical_n_iters == defaults.hierarchical_n_iters,
        options.streaming_batch_size is None ==> options.overridden(defaults).streaming_batch_size == defaults.streaming_batch_size,
{
}

} // verus!

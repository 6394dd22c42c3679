//! Parameters for searching a CAGRA index.

use vstd::prelude::*;
use vstd::string::*;

use crate::binary::{Binary32, Shown32, NINE_TENTHS_32, TENTH_32};
use crate::call::{Call, ParamsKind};
use crate::error::LibraryError;
use crate::ffi::{cuvsCagraHashMode, cuvsCagraSearchAlgo, cuvsCagraSearchParams, Created};
use crate::neighbors::cagra::{CagraError, HashMode, SearchAlgo};
use crate::release::{release_made, Refused};
use crate::settings::choose_setting;
use crate::text::{with_decimal, with_text};

verus! {

/// The fill rate lies in the half-open range from one tenth to nine tenths.
pub open spec fn fill_rate_in_range(rate: Binary32) -> bool {
    (Binary32 { bits: TENTH_32 }).at_most(rate) && rate.less(Binary32 { bits: NINE_TENTHS_32 })
}

/// Settings of [`SearchParams`]; one that is not given keeps the library's default.
#[derive(Debug)]
pub struct SearchParamsBuilder {
    pub max_queries: Option<usize>,
    pub itopk_size: Option<usize>,
    pub max_iterations: Option<usize>,
    pub algo: Option<SearchAlgo>,
    pub team_size: Option<usize>,
    pub search_width: Option<usize>,
    pub min_iterations: Option<usize>,
    pub thread_block_size: Option<usize>,
    pub hashmap_mode: Option<HashMode>,
    pub hashmap_min_bitlen: Option<usize>,
    pub hashmap_max_fill_rate: Option<Shown32>,
    pub num_random_samplings: Option<u32>,
    pub rand_xor_mask: Option<u64>,
    pub persistent: Option<bool>,
    pub persistent_lifetime: Option<Binary32>,
    pub persistent_device_usage: Option<Binary32>,
}

impl SearchParamsBuilder {
    /// The record with each given setting in place of its default.
    pub open spec fn overridden(self, defaults: cuvsCagraSearchParams) -> cuvsCagraSearchParams {
        cuvsCagraSearchParams {
            max_queries: crate::settings::set_or(self.max_queries, defaults.max_queries),
            itopk_size: crate::settings::set_or(self.itopk_size, defaults.itopk_size),
            max_iterations: crate::settings::set_or(self.max_iterations, defaults.max_iterations),
            algo: match self.algo {
                Some(v) => v.code(),
                None => defaults.algo,
            },
            team_size: crate::settings::set_or(self.team_size, defaults.team_size),
            search_width: crate::settings::set_or(self.search_width, defaults.search_width),
            min_iterations: crate::settings::set_or(self.min_iterations, defaults.min_iterations),
            thread_block_size: crate::settings::set_or(self.thread_block_size, defaults.thread_block_size),
            hashmap_mode: match self.hashmap_mode {
                Some(v) => v.code(),
                None => defaults.hashmap_mode,
            },
            hashmap_min_bitlen: crate::settings::set_or(self.hashmap_min_bitlen, defaults.hashmap_min_bitlen),
            hashmap_max_fill_rate: match self.hashmap_max_fill_rate {
                Some(v) => v.value,
                None => defaults.hashmap_max_fill_rate,
            },
            num_random_samplings: crate::settings::set_or(self.num_random_samplings, defaults.num_random_samplings),
            rand_xor_mask: crate::settings::set_or(self.rand_xor_mask, defaults.rand_xor_mask),
            persistent: crate::settings::set_or(self.persistent, defaults.persistent),
            persistent_lifetime: crate::settings::set_or(self.persistent_lifetime, defaults.persistent_lifetime),
            persistent_device_usage: crate::settings::set_or(self.persistent_device_usage, defaults.persistent_device_usage),
        }
    }

    fn apply(self, defaults: cuvsCagraSearchParams) -> (r: cuvsCagraSearchParams)
        ensures
            r == self.overridden(defaults),
    {
        cuvsCagraSearchParams {
            max_queries: choose_setting(self.max_queries, defaults.max_queries),
            itopk_size: choose_setting(self.itopk_size, defaults.itopk_size),
            max_iterations: choose_setting(self.max_iterations, defaults.max_iterations),
            algo: match self.algo {
                Some(v) => cuvsCagraSearchAlgo::from(v),
                None => defaults.algo,
            },
            team_size: choose_setting(self.team_size, defaults.team_size),
            search_width: choose_setting(self.search_width, defaults.search_width),
            min_iterations: choose_setting(self.min_iterations, defaults.min_iterations),
            thread_block_size: choose_setting(self.thread_block_size, defaults.thread_block_size),
            hashmap_mode: match self.hashmap_mode {
                Some(v) => cuvsCagraHashMode::from(v),
                None => defaults.hashmap_mode,
            },
            hashmap_min_bitlen: choose_setting(self.hashmap_min_bitlen, defaults.hashmap_min_bitlen),
            hashmap_max_fill_rate: match self.hashmap_max_fill_rate {
                Some(v) => v.value,
                None => defaults.hashmap_max_fill_rate,
            },
            num_random_samplings: choose_setting(self.num_random_samplings, defaults.num_random_samplings),
            rand_xor_mask: choose_setting(self.rand_xor_mask, defaults.rand_xor_mask),
            persistent: choose_setting(self.persistent, defaults.persistent),
            persistent_lifetime: choose_setting(self.persistent_lifetime, defaults.persistent_lifetime),
            persistent_device_usage: choose_setting(self.persistent_device_usage, defaults.persistent_device_usage),
        }
    }

    /// The kernel that the search will use.
    pub open spec fn effective_algo(self, defaults: cuvsCagraSearchParams) -> SearchAlgo {
        crate::settings::set_or(self.algo, SearchAlgo::of_code(defaults.algo))
    }

    /// The hash-table mode that the search will use.
    pub open spec fn effective_hashmap_mode(self, defaults: cuvsCagraSearchParams) -> HashMode {
        crate::settings::set_or(self.hashmap_mode, HashMode::of_code(defaults.hashmap_mode))
    }

    /// Why the settings are refused over these defaults, where they are. The
    /// first rule that is broken decides.
    pub open spec fn violation(self, defaults: cuvsCagraSearchParams) -> Option<Seq<char>> {
        if self.itopk_size is Some && self.effective_algo(defaults) == SearchAlgo::SingleCta && self.itopk_size->0
            > 512 {
            Some(
                "itopk_size cannot be larger than 512 for SingleCta, got "@ + crate::text::decimal(
                    self.itopk_size->0 as nat,
                ),
            )
        } else if self.team_size is Some && !set![0usize, 8, 16, 32].contains(self.team_size->0) {
            Some(
                "team_size must be 0 (auto), 8, 16, or 32, got "@ + crate::text::decimal(self.team_size->0 as nat),
            )
        } else if self.thread_block_size is Some && !set![0usize, 64, 128, 256, 512, 1024].contains(
            self.thread_block_size->0,
        ) {
            Some(
                "thread_block_size must be 0, 64, 128, 256, 512, or 1024, got "@ + crate::text::decimal(
                    self.thread_block_size->0 as nat,
                ),
            )
        } else if self.hashmap_min_bitlen is Some && self.hashmap_min_bitlen->0 > 20 {
            Some(
                "hashmap_min_bitlen must be <= 20, got "@ + crate::text::decimal(self.hashmap_min_bitlen->0 as nat),
            )
        } else if self.hashmap_max_fill_rate is Some && !fill_rate_in_range(self.hashmap_max_fill_rate->0.value) {
            Some("hashmap_max_fill_rate must be in [0.1, 0.9), got "@ + self.hashmap_max_fill_rate->0.text@)
        } else if self.effective_algo(defaults) == SearchAlgo::MultiCta && self.effective_hashmap_mode(defaults)
            == HashMode::Small {
            Some("`small_hash` is not available when 'search_mode' is \"multi-cta\""@)
        } else {
            None
        }
    }
}

/// Parameters for searching a CAGRA index.
#[derive(Debug)]
pub struct SearchParams {
    pub handle: usize,
    pub record: cuvsCagraSearchParams,
}

impl SearchParams {
    /// Settings of which none is given yet.
    pub fn builder() -> (r: SearchParamsBuilder)
        ensures
            r == (SearchParamsBuilder {
                max_queries: None,
                itopk_size: None,
                max_iterations: None,
                algo: None,
                team_size: None,
                search_width: None,
                min_iterations: None,
                thread_block_size: None,
                hashmap_mode: None,
                hashmap_min_bitlen: None,
                hashmap_max_fill_rate: None,
                num_random_samplings: None,
                rand_xor_mask: None,
                persistent: None,
                persistent_lifetime: None,
                persistent_device_usage: None,
            }),
    {
        SearchParamsBuilder {
            max_queries: None,
            itopk_size: None,
            max_iterations: None,
            algo: None,
            team_size: None,
            search_width: None,
            min_iterations: None,
            thread_block_size: None,
            hashmap_mode: None,
            hashmap_min_bitlen: None,
            hashmap_max_fill_rate: None,
            num_random_samplings: None,
            rand_xor_mask: None,
            persistent: None,
            persistent_lifetime: None,
            persistent_device_usage: None,
        }
    }

    /// Takes over a record that holds the library's defaults.
    pub fn try_new(created: Result<Created<cuvsCagraSearchParams>, LibraryError>) -> (r: Result<SearchParams, CagraError>)
        ensures
            match created {
                Ok(c) => r matches Ok(params) && params.handle == c.handle && params.record == c.record,
                Err(e) => r == Err::<SearchParams, CagraError>(CagraError::Library(e)),
            },
    {
        match created {
            Ok(c) => Ok(SearchParams { handle: c.handle, record: c.record }),
            Err(e) => Err(CagraError::from(e)),
        }
    }

    /// Checks the settings against the defaults that they leave in place.
    pub fn validate(options: &SearchParamsBuilder, defaults: &cuvsCagraSearchParams) -> (r: Result<(), CagraError>)
        ensures
            match options.violation(*defaults) {
                Some(text) => r matches Err(CagraError::Validation(s)) && s@ == text,
                None => r is Ok,
            },
    {
        let effective_algo = choose_setting(options.algo, SearchAlgo::from(defaults.algo));
        let effective_hashmap_mode = choose_setting(options.hashmap_mode, HashMode::from(defaults.hashmap_mode));
        match options.itopk_size {
            Some(n) => {
                if effective_algo == SearchAlgo::SingleCta && n > 512 {
                    return Err(
                        CagraError::Validation(
                            with_decimal("itopk_size cannot be larger than 512 for SingleCta, got ", n as u64),
                        ),
                    );
                }
            },
            None => {},
        }
        match options.team_size {
            Some(n) => {
                if !(n == 0 || n == 8 || n == 16 || n == 32) {
                    return Err(
                        CagraError::Validation(
                            with_decimal("team_size must be 0 (auto), 8, 16, or 32, got ", n as u64),
                        ),
                    );
                }
            },
            None => {},
        }
        match options.thread_block_size {
            Some(n) => {
                if !(n == 0 || n == 64 || n == 128 || n == 256 || n == 512 || n == 1024) {
                    return Err(
                        CagraError::Validation(
                            with_decimal("thread_block_size must be 0, 64, 128, 256, 512, or 1024, got ", n as u64),
                        ),
                    );
                }
            },
            None => {},
        }
        match options.hashmap_min_bitlen {
            Some(bitlen) => {
                if bitlen > 20 {
                    return Err(
                        CagraError::Validation(with_decimal("hashmap_min_bitlen must be <= 20, got ", bitlen as u64)),
                    );
                }
            },
            None => {},
        }
        match &options.hashmap_max_fill_rate {
            Some(rate) => {
                let low = Binary32 { bits: TENTH_32 };
                let high = Binary32 { bits: NINE_TENTHS_32 };
                if !(low.le(rate.value) && rate.value.lt(high)) {
                    return Err(
                        CagraError::Validation(
                            with_text("hashmap_max_fill_rate must be in [0.1, 0.9), got ", rate.text.as_str()),
                        ),
                    );
                }
            },
            None => {},
        }
        if effective_algo == SearchAlgo::MultiCta && effective_hashmap_mode == HashMode::Small {
            return Err(
                CagraError::Validation(
                    String::from_str("`small_hash` is not available when 'search_mode' is \"multi-cta\""),
                ),
            );
        }
        Ok(())
    }

    /// Takes over a record, checks the settings against what it holds, and puts
    /// them into it.
    pub fn new(options: SearchParamsBuilder, created: Result<Created<cuvsCagraSearchParams>, LibraryError>) -> (r: Result<SearchParams, Refused<CagraError>>)
        ensures
            match created {
                Err(e) => r matches Err(refused) && refused.error == CagraError::Library(e),
                Ok(c) => match options.violation(c.record) {
                    Some(text) => r matches Err(refused) && refused.error matches CagraError::Validation(s) && s@ == text,
                    None => r matches Ok(params) && params.handle == c.handle && params.record == options.overridden(
                        c.record,
                    ),
                },
            },
            r matches Err(refused) ==> refused.calls@ == crate::release::made(ParamsKind::CagraSearch, created),
    {
        let calls = release_made(ParamsKind::CagraSearch, &created);
        let mut params = match SearchParams::try_new(created) {
            Ok(params) => params,
            Err(error) => return Err(Refused { error, calls }),
        };
        match SearchParams::validate(&options, &params.record) {
            Ok(()) => {},
            Err(error) => return Err(Refused { error, calls }),
        }
        params.record = options.apply(params.record);
        Ok(params)
    }

    /// Address of the record.
    pub fn handle(&self) -> (r: usize)
        ensures
            r == self.handle,
    {
        self.handle
    }

    /// The call that gives the record back. It ends the parameters, so that
    /// there is one.
    pub fn teardown(self) -> (r: Call<'static>)
        ensures
            r == (Call::ParamsDestroy { kind: ParamsKind::CagraSearch, params: self.handle }),
    {
        Call::ParamsDestroy { kind: ParamsKind::CagraSearch, params: self.handle }
    }
}

/// A setting that is not given leaves its field as the library made it.
pub proof fn unset_search_params_keep_defaults(options: SearchParamsBuilder, defaults: cuvsCagraSearchParams)
    ensures
        options.max_queries is None ==> options.overridden(defaults).max_queries == defaults.max_queries,
        options.itopk_size is None ==> options.overridden(defaults).itopk_size == defaults.itopk_size,
        options.max_iterations is None ==> options.overridden(defaults).max_iterations == defaults.max_iterations,
        options.algo is None ==> options.overridden(defaults).algo == defaults.algo,
        options.team_size is None ==> options.overridden(defaults).team_size == defaults.team_size,
        options.search_width is None ==> options.overridden(defaults).search_width == defaults.search_width,
        options.min_iterations is None ==> options.overridden(defaults).min_iterations == defaults.min_iterations,
        options.thread_block_size is None ==> options.overridden(defaults).thread_block_size == defaults.thread_block_size,
        options.hashmap_mode is None ==> options.overridden(defaults).hashmap_mode == defaults.hashmap_mode,
        options.hashmap_min_bitlen is None ==> options.overridden(defaults).hashmap_min_bitlen == defaults.hashmap_min_bitlen,
        options.hashmap_max_fill_rate is None ==> options.overridden(defaults).hashmap_max_fill_rate == defaults.hashmap_max_fill_rate,
        options.num_random_samplings is None ==> options.overridden(defaults).num_random_samplings == defaults.num_random_samplings,
        options.rand_xor_mask is None ==> options.overridden(defaults).rand_xor_mask == defaults.rand_xor_mask,
        options.persistent is None ==> options.overridden(defaults).persistent == defaults.persistent,
        options.persistent_lifetime is None ==> options.overridden(defaults).persistent_lifetime == defaults.persistent_lifetime,
        options.persistent_device_usage is None ==> options.overridden(defaults).persistent_device_usage == defaults.persistent_device_usage,
{
}

} // verus!

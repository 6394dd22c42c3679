//! Parameters for IVF-PQ index build and search.
//!
//! Each parameter type owns a record of the C library. A setting that is not
//! given keeps the default that the library put into the record.

use vstd::prelude::*;
use vstd::string::*;

use crate::binary::Shown64;
use crate::call::{Call, ParamsKind};
use crate::distance::DistanceType;
use crate::error::LibraryError;
use crate::ffi::{
    cudaDataType_t, cuvsDistanceType, cuvsIvfPqCodebookGen, cuvsIvfPqIndexParams, cuvsIvfPqListLayout,
    cuvsIvfPqSearchParams, Created,
};
use crate::release::{release_made, Refused};
use crate::settings::{choose_setting, fraction, share};
use crate::text::{push_decimal, with_decimal, with_text};

use super::{CoarseSearchDType, CodebookGen, InternalDistanceDType, IvfPqError, ListLayout, LutDType};

verus! {

/// Settings of [`IndexParams`]; one that is not given keeps the library's default.
#[derive(Debug)]
pub struct IndexParamsBuilder {
    pub metric: Option<DistanceType>,
    pub n_lists: Option<u32>,
    pub kmeans_n_iters: Option<u32>,
    pub kmeans_trainset_fraction: Option<Shown64>,
    pub pq_bits: Option<u32>,
    pub pq_dim: Option<u32>,
    pub codebook_kind: Option<CodebookGen>,
    pub codes_layout: Option<ListLayout>,
    pub force_random_rotation: Option<bool>,
    pub conservative_memory_allocation: Option<bool>,
    pub max_train_points_per_pq_code: Option<u32>,
    pub add_data_on_build: Option<bool>,
}

impl IndexParamsBuilder {
    /// The record with each given setting in place of its default.
    pub open spec fn overridden(self, defaults: cuvsIvfPqIndexParams) -> cuvsIvfPqIndexParams {
        cuvsIvfPqIndexParams {
            metric: match self.metric {
                Some(v) => v.code(),
                None => defaults.metric,
            },
            n_lists: crate::settings::set_or(self.n_lists, defaults.n_lists),
            kmeans_n_iters: crate::settings::set_or(self.kmeans_n_iters, defaults.kmeans_n_iters),
            kmeans_trainset_fraction: match self.kmeans_trainset_fraction {
                Some(v) => v.value,
                None => defaults.kmeans_trainset_fraction,
            },
            pq_bits: crate::settings::set_or(self.pq_bits, defaults.pq_bits),
            pq_dim: crate::settings::set_or(self.pq_dim, defaults.pq_dim),
            codebook_kind: match self.codebook_kind {
                Some(v) => v.code(),
                None => defaults.codebook_kind,
            },
            codes_layout: match self.codes_layout {
                Some(v) => v.code(),
                None => defaults.codes_layout,
            },
            force_random_rotation: crate::settings::set_or(self.force_random_rotation, defaults.force_random_rotation),
            conservative_memory_allocation: crate::settings::set_or(self.conservative_memory_allocation, defaults.conservative_memory_allocation),
            max_train_points_per_pq_code: crate::settings::set_or(self.max_train_points_per_pq_code, defaults.max_train_points_per_pq_code),
            add_data_on_build: crate::settings::set_or(self.add_data_on_build, defaults.add_data_on_build),
            metric_arg: match self.metric {
                Some(v) => v.argument(),
                None => defaults.metric_arg,
            },
        }
    }

    fn apply(self, defaults: cuvsIvfPqIndexParams) -> (r: cuvsIvfPqIndexParams)
        ensures
            r == self.overridden(defaults),
    {
        cuvsIvfPqIndexParams {
            metric: match self.metric {
                Some(v) => cuvsDistanceType::from(v),
                None => defaults.metric,
            },
            n_lists: choose_setting(self.n_lists, defaults.n_lists),
            kmeans_n_iters: choose_setting(self.kmeans_n_iters, defaults.kmeans_n_iters),
            kmeans_trainset_fraction: match self.kmeans_trainset_fraction {
                Some(v) => v.value,
                None => defaults.kmeans_trainset_fraction,
            },
            pq_bits: choose_setting(self.pq_bits, defaults.pq_bits),
            pq_dim: choose_setting(self.pq_dim, defaults.pq_dim),
            codebook_kind: match self.codebook_kind {
                Some(v) => cuvsIvfPqCodebookGen::from(v),
                None => defaults.codebook_kind,
            },
            codes_layout: match self.codes_layout {
                Some(v) => cuvsIvfPqListLayout::from(v),
                None => defaults.codes_layout,
            },
            force_random_rotation: choose_setting(self.force_random_rotation, defaults.force_random_rotation),
            conservative_memory_allocation: choose_setting(self.conservative_memory_allocation, defaults.conservative_memory_allocation),
            max_train_points_per_pq_code: choose_setting(self.max_train_points_per_pq_code, defaults.max_train_points_per_pq_code),
            add_data_on_build: choose_setting(self.add_data_on_build, defaults.add_data_on_build),
            metric_arg: match self.metric {
                Some(v) => v.metric_arg(),
                None => defaults.metric_arg,
            },
        }
    }

    /// The bit width of a code that the rules count with.
    pub open spec fn effective_pq_bits(self) -> u32 {
        crate::settings::set_or(self.pq_bits, 8)
    }

    /// Why the settings are refused, where they are. The first rule that is
    /// broken decides.
    pub open spec fn violation(self) -> Option<Seq<char>> {
        if self.n_lists == Some(0u32) {
            Some("n_lists must be > 0"@)
        } else if self.kmeans_trainset_fraction is Some && !crate::settings::is_fraction(
            self.kmeans_trainset_fraction->0.value,
        ) {
            Some("kmeans_trainset_fraction must be in (0, 1], got "@ + self.kmeans_trainset_fraction->0.text@)
        } else if self.pq_bits is Some && !(4 <= self.pq_bits->0 <= 8) {
            Some("pq_bits must be within [4, 8], got "@ + crate::text::decimal(self.pq_bits->0 as nat))
        } else if self.pq_dim is Some && (self.pq_dim->0 * self.effective_pq_bits()) % 8 != 0 {
            Some(
                "pq_dim * pq_bits must be a multiple of 8, got pq_dim="@ + crate::text::decimal(self.pq_dim->0 as nat)
                    + ", pq_bits="@ + crate::text::decimal(self.effective_pq_bits() as nat),
            )
        } else {
            None
        }
    }
}

/// Parameters for building an IVF-PQ index.
#[derive(Debug)]
pub struct IndexParams {
    pub handle: usize,
    pub record: cuvsIvfPqIndexParams,
}

impl IndexParams {
    /// Settings of which none is given yet.
    pub fn builder() -> (r: IndexParamsBuilder)
        ensures
            r == (IndexParamsBuilder {
                metric: None,
                n_lists: None,
                kmeans_n_iters: None,
                kmeans_trainset_fraction: None,
                pq_bits: None,
                pq_dim: None,
                codebook_kind: None,
                codes_layout: None,
                force_random_rotation: None,
                conservative_memory_allocation: None,
                max_train_points_per_pq_code: None,
                add_data_on_build: None,
            }),
    {
        IndexParamsBuilder {
            metric: None,
            n_lists: None,
            kmeans_n_iters: None,
            kmeans_trainset_fraction: None,
            pq_bits: None,
            pq_dim: None,
            codebook_kind: None,
            codes_layout: None,
            force_random_rotation: None,
            conservative_memory_allocation: None,
            max_train_points_per_pq_code: None,
            add_data_on_build: None,
        }
    }

    /// Takes over a record that holds the library's defaults.
    fn try_new(created: Result<Created<cuvsIvfPqIndexParams>, LibraryError>) -> (r: Result<IndexParams, IvfPqError>)
        ensures
            match created {
                Ok(c) => r matches Ok(params) && params.handle == c.handle && params.record == c.record,
                Err(e) => r == Err::<IndexParams, IvfPqError>(IvfPqError::Library(e)),
            },
    {
        match created {
            Ok(c) => Ok(IndexParams { handle: c.handle, record: c.record }),
            Err(e) => Err(IvfPqError::from(e)),
        }
    }

    /// Checks the settings before a record is made for them.
    pub fn validate(options: &IndexParamsBuilder) -> (r: Result<(), IvfPqError>)
        ensures
            match options.violation() {
                Some(text) => r matches Err(IvfPqError::Validation(s)) && s@ == text,
                None => r is Ok,
            },
    {
        match options.n_lists {
            Some(n) => {
                if n == 0 {
                    return Err(IvfPqError::Validation(String::from_str("n_lists must be > 0")));
                }
            },
            None => {},
        }
        match &options.kmeans_trainset_fraction {
            Some(frac) => {
                if !fraction(frac.value) {
                    return Err(IvfPqError::Validation(with_text("kmeans_trainset_fraction must be in (0, 1], got ", frac.text.as_str())));
                }
            },
            None => {},
        }
        match options.pq_bits {
            Some(bits) => {
                if bits < 4 || bits > 8 {
                    return Err(IvfPqError::Validation(with_decimal("pq_bits must be within [4, 8], got ", bits as u64)));
                }
            },
            None => {},
        }
        let effective_pq_bits: u32 = choose_setting(options.pq_bits, 8);
        match options.pq_dim {
            Some(dim) => {
                assert(dim * effective_pq_bits <= 0xffff_ffff * 0xffff_ffff) by (nonlinear_arith)
                    requires
                        dim <= 0xffff_ffff,
                        effective_pq_bits <= 0xffff_ffff,
                ;
                assert(dim == 0 ==> (dim * effective_pq_bits) % 8 == 0) by (nonlinear_arith);
                if dim != 0 && (dim as u64 * effective_pq_bits as u64) % 8 != 0 {
                    let mut text = String::from_str("pq_dim * pq_bits must be a multiple of 8, got pq_dim=");
                    push_decimal(&mut text, dim as u64);
                    text.append(", pq_bits=");
                    push_decimal(&mut text, effective_pq_bits as u64);
                    return Err(IvfPqError::Validation(text));
                }
            },
            None => {},
        }
        Ok(())
    }

    /// Checks the settings, then takes over a record and puts them into it.
    pub fn new(options: IndexParamsBuilder, created: Result<Created<cuvsIvfPqIndexParams>, LibraryError>) -> (r: Result<IndexParams, Refused<IvfPqError>>)
        ensures
            match options.violation() {
                Some(text) => r matches Err(refused) && refused.error matches IvfPqError::Validation(s) && s@ == text,
                None => match created {
                    Err(e) => r matches Err(refused) && refused.error == IvfPqError::Library(e),
                    Ok(c) => r matches Ok(params) && params.handle == c.handle && params.record == options.overridden(
                        c.record,
                    ),
                },
            },
            r matches Err(refused) ==> refused.calls@ == crate::release::made(ParamsKind::IvfPqIndex, created),
    {
        let calls = release_made(ParamsKind::IvfPqIndex, &created);
        match IndexParams::validate(&options) {
            Ok(()) => {},
            Err(error) => return Err(Refused { error, calls }),
        }
        let mut params = match IndexParams::try_new(created) {
            Ok(params) => params,
            Err(error) => return Err(Refused { error, calls }),
        };
        params.record = options.apply(params.record);
        Ok(params)
    }

    /// Address of the record.
    pub fn handle(&self) -> (r: usize)
        ensures
            r == self.handle,
    {
        self.handle
    }

    /// The call that gives the record back. It ends the parameters, so that
    /// there is one.
    pub fn teardown(self) -> (r: Call<'static>)
        ensures
            r == (Call::ParamsDestroy { kind: ParamsKind::IvfPqIndex, params: self.handle }),
    {
        Call::ParamsDestroy { kind: ParamsKind::IvfPqIndex, params: self.handle }
    }
}

/// A setting that is not given leaves its field as the library made it.
pub proof fn unset_index_params_keep_defaults(options: IndexParamsBuilder, defaults: cuvsIvfPqIndexParams)
    ensures
        options.metric is None ==> options.overridden(defaults).metric == defaults.metric,
        options.n_lists is None ==> options.overridden(defaults).n_lists == defaults.n_lists,
        options.kmeans_n_iters is None ==> options.overridden(defaults).kmeans_n_iters == defaults.kmeans_n_iters,
        options.kmeans_trainset_fraction is None ==> options.overridden(defaults).kmeans_trainset_fraction == defaults.kmeans_trainset_fraction,
        options.pq_bits is None ==> options.overridden(defaults).pq_bits == defaults.pq_bits,
        options.pq_dim is None ==> options.overridden(defaults).pq_dim == defaults.pq_dim,
        options.codebook_kind is None ==> options.overridden(defaults).codebook_kind == defaults.codebook_kind,
        options.codes_layout is None ==> options.overridden(defaults).codes_layout == defaults.codes_layout,
        options.force_random_rotation is None ==> options.overridden(defaults).force_random_rotation == defaults.force_random_rotation,
        options.conservative_memory_allocation is None ==> options.overridden(defaults).conservative_memory_allocation == defaults.conservative_memory_allocation,
        options.max_train_points_per_pq_code is None ==> options.overridden(defaults).max_train_points_per_pq_code == defaults.max_train_points_per_pq_code,
        options.add_data_on_build is None ==> options.overridden(defaults).add_data_on_build == defaults.add_data_on_build,
{
}

/// With the default code width of eight bits, or with eight given, every
/// `pq_dim` is accepted.
pub proof fn eight_bit_codes_fit_any_dimension(options: IndexParamsBuilder)
    requires
        options.pq_bits is None || options.pq_bits == Some(8u32),
        (IndexParamsBuilder { pq_dim: None, ..options }).violation() is None,
    ensures
        options.violation() is None,
{
    if options.pq_dim is Some {
        let dim = options.pq_dim->0;
        assert((dim * 8) % 8 == 0);
    }
}

/// A dimension that is a multiple of eight is accepted with every code width
/// that the rules admit.
pub proof fn multiples_of_eight_fit_any_code_width(options: IndexParamsBuilder)
    requires
        options.pq_dim is Some,
        options.pq_dim->0 % 8 == 0,
        (IndexParamsBuilder { pq_dim: None, ..options }).violation() is None,
    ensures
        options.violation() is None,
{
    let dim = options.pq_dim->0 as int;
    let bits = options.effective_pq_bits() as int;
    let k = dim / 8;
    assert(dim * bits == (k * bits) * 8) by (nonlinear_arith)
        requires
            dim == 8 * k,
    ;
    vstd::arithmetic::div_mod::lemma_mod_multiples_basic(k * bits, 8);
}

/// Settings of [`SearchParams`]; one that is not given keeps the library's default.
#[derive(Debug)]
pub struct SearchParamsBuilder {
    pub n_probes: Option<u32>,
    pub lut_dtype: Option<LutDType>,
    pub internal_distance_dtype: Option<InternalDistanceDType>,
    pub coarse_search_dtype: Option<CoarseSearchDType>,
    pub max_internal_batch_size: Option<u32>,
    pub preferred_shmem_carveout: Option<Shown64>,
}

impl SearchParamsBuilder {
    /// The record with each given setting in place of its default.
    pub open spec fn overridden(self, defaults: cuvsIvfPqSearchParams) -> cuvsIvfPqSearchParams {
        cuvsIvfPqSearchParams {
            n_probes: crate::settings::set_or(self.n_probes, defaults.n_probes),
            lut_dtype: match self.lut_dtype {
                Some(v) => v.code(),
                None => defaults.lut_dtype,
            },
            internal_distance_dtype: match self.internal_distance_dtype {
                Some(v) => v.code(),
                None => defaults.internal_distance_dtype,
            },
            coarse_search_dtype: match self.coarse_search_dtype {
                Some(v) => v.code(),
                None => defaults.coarse_search_dtype,
            },
            max_internal_batch_size: crate::settings::set_or(self.max_internal_batch_size, defaults.max_internal_batch_size),
            preferred_shmem_carveout: match self.preferred_shmem_carveout {
                Some(v) => v.value,
                None => defaults.preferred_shmem_carveout,
            },
        }
    }

    fn apply(self, defaults: cuvsIvfPqSearchParams) -> (r: cuvsIvfPqSearchParams)
        ensures
            r == self.overridden(defaults),
    {
        cuvsIvfPqSearchParams {
            n_probes: choose_setting(self.n_probes, defaults.n_probes),
            lut_dtype: match self.lut_dtype {
                Some(v) => cudaDataType_t::from(v),
                None => defaults.lut_dtype,
            },
            internal_distance_dtype: match self.internal_distance_dtype {
                Some(v) => cudaDataType_t::from(v),
                None => defaults.internal_distance_dtype,
            },
            coarse_search_dtype: match self.coarse_search_dtype {
                Some(v) => cudaDataType_t::from(v),
                None => defaults.coarse_search_dtype,
            },
            max_internal_batch_size: choose_setting(self.max_internal_batch_size, defaults.max_internal_batch_size),
            preferred_shmem_carveout: match self.preferred_shmem_carveout {
                Some(v) => v.value,
                None => defaults.preferred_shmem_carveout,
            },
        }
    }

    /// Why the settings are refused, where they are. The first rule that is
    /// broken decides.
    pub open spec fn violation(self) -> Option<Seq<char>> {
        if self.n_probes == Some(0u32) {
            Some("n_probes must be > 0"@)
        } else if self.preferred_shmem_carveout is Some && !crate::settings::is_share(
            self.preferred_shmem_carveout->0.value,
        ) {
            Some("preferred_shmem_carveout must be in [0, 1], got "@ + self.preferred_shmem_carveout->0.text@)
        } else if self.lut_dtype == Some(LutDType::F32) && self.internal_distance_dtype == Some(
            InternalDistanceDType::F16,
        ) {
            Some("internal_distance_dtype must be at least as wide as lut_dtype"@)
        } else {
            None
        }
    }
}

/// Parameters for searching an IVF-PQ index.
#[derive(Debug)]
pub struct SearchParams {
    pub handle: usize,
    pub record: cuvsIvfPqSearchParams,
}

impl SearchParams {
    /// Settings of which none is given yet.
    pub fn builder() -> (r: SearchParamsBuilder)
        ensures
            r == (SearchParamsBuilder {
                n_probes: None,
                lut_dtype: None,
                internal_distance_dtype: None,
                coarse_search_dtype: None,
                max_internal_batch_size: None,
                preferred_shmem_carveout: None,
            }),
    {
        SearchParamsBuilder {
            n_probes: None,
            lut_dtype: None,
            internal_distance_dtype: None,
            coarse_search_dtype: None,
            max_internal_batch_size: None,
            preferred_shmem_carveout: None,
        }
    }

    /// Takes over a record that holds the library's defaults.
    fn try_new(created: Result<Created<cuvsIvfPqSearchParams>, LibraryError>) -> (r: Result<SearchParams, IvfPqError>)
        ensures
            match created {
                Ok(c) => r matches Ok(params) && params.handle == c.handle && params.record == c.record,
                Err(e) => r == Err::<SearchParams, IvfPqError>(IvfPqError::Library(e)),
            },
    {
        match created {
            Ok(c) => Ok(SearchParams { handle: c.handle, record: c.record }),
            Err(e) => Err(IvfPqError::from(e)),
        }
    }

    /// Checks the settings before a record is made for them.
    pub fn validate(options: &SearchParamsBuilder) -> (r: Result<(), IvfPqError>)
        ensures
            match options.violation() {
                Some(text) => r matches Err(IvfPqError::Validation(s)) && s@ == text,
                None => r is Ok,
            },
    {
        match options.n_probes {
            Some(n) => {
                if n == 0 {
                    return Err(IvfPqError::Validation(String::from_str("n_probes must be > 0")));
                }
            },
            None => {},
        }
        match &options.preferred_shmem_carveout {
            Some(carveout) => {
                if !share(carveout.value) {
                    return Err(IvfPqError::Validation(with_text("preferred_shmem_carveout must be in [0, 1], got ", carveout.text.as_str())));
                }
            },
            None => {},
        }
        match (options.lut_dtype, options.internal_distance_dtype) {
            (Some(LutDType::F32), Some(InternalDistanceDType::F16)) => {
                return Err(
                    IvfPqError::Validation(
                        String::from_str("internal_distance_dtype must be at least as wide as lut_dtype"),
                    ),
                );
            },
            _ => {},
        }
        Ok(())
    }

    /// Checks the settings, then takes over a record and puts them into it.
    pub fn new(options: SearchParamsBuilder, created: Result<Created<cuvsIvfPqSearchParams>, LibraryError>) -> (r: Result<SearchParams, Refused<IvfPqError>>)
        ensures
            match options.violation() {
                Some(text) => r matches Err(refused) && refused.error matches IvfPqError::Validation(s) && s@ == text,
                None => match created {
                    Err(e) => r matches Err(refused) && refused.error == IvfPqError::Library(e),
                    Ok(c) => r matches Ok(params) && params.handle == c.handle && params.record == options.overridden(
                        c.record,
                    ),
                },
            },
            r matches Err(refused) ==> refused.calls@ == crate::release::made(ParamsKind::IvfPqSearch, created),
    {
        let calls = release_made(ParamsKind::IvfPqSearch, &created);
        match SearchParams::validate(&options) {
            Ok(()) => {},
            Err(error) => return Err(Refused { error, calls }),
        }
        let mut params = match SearchParams::try_new(created) {
            Ok(params) => params,
            Err(error) => return Err(Refused { error, calls }),
        };
        params.record = options.apply(params.record);
        Ok(params)
    }

    /// Address of the record.
    pub fn handle(&self) -> (r: usize)
        ensures
            r == self.handle,
    {
        self.handle
    }

    /// The call that gives the record back. It ends the parameters, so that
    /// there is one.
    pub fn teardown(self) -> (r: Call<'static>)
        ensures
            r == (Call::ParamsDestroy { kind: ParamsKind::IvfPqSearch, params: self.handle }),
    {
        Call::ParamsDestroy { kind: ParamsKind::IvfPqSearch, params: self.handle }
    }
}

/// A setting that is not given leaves its field as the library made it.
pub proof fn unset_search_params_keep_defaults(options: SearchParamsBuilder, defaults: cuvsIvfPqSearchParams)
    ensures
        options.n_probes is None ==> options.overridden(defaults).n_probes == defaults.n_probes,
        options.lut_dtype is None ==> options.overridden(defaults).lut_dtype == defaults.lut_dtype,
        options.internal_distance_dtype is None ==> options.overridden(defaults).internal_distance_dtype == defaults.internal_distance_dtype,
        options.coarse_search_dtype is None ==> options.overridden(defaults).coarse_search_dtype == defaults.coarse_search_dtype,
        options.max_internal_batch_size is None ==> options.overridden(defaults).max_internal_batch_size == defaults.max_internal_batch_size,
        options.preferred_shmem_carveout is None ==> options.overridden(defaults).preferred_shmem_carveout == defaults.preferred_shmem_carveout,
{
}

} // verus!

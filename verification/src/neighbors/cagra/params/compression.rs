//! Parameters of VPQ compression.

use vstd::prelude::*;

use crate::binary::Binary64;
use crate::call::{Call, ParamsKind};
use crate::error::LibraryError;
use crate::ffi::{cuvsCagraCompressionParams, Created};
use crate::neighbors::cagra::CagraError;
use crate::release::{release_made, Refused};
use crate::settings::choose_setting;
use crate::text::with_decimal;

verus! {

/// Settings of [`CompressionParams`]; one that is not given keeps the library's default.
#[derive(Debug)]
pub struct CompressionParamsBuilder {
    pub pq_bits: Option<u32>,
    pub pq_dim: Option<u32>,
    pub vq_n_centers: Option<u32>,
    pub kmeans_n_iters: Option<u32>,
    pub vq_kmeans_trainset_fraction: Option<Binary64>,
    pub pq_kmeans_trainset_fraction: Option<Binary64>,
}

impl CompressionParamsBuilder {
    /// The record with each given setting in place of its default.
    pub open spec fn overridden(self, defaults: cuvsCagraCompressionParams) -> cuvsCagraCompressionParams {
        cuvsCagraCompressionParams {
            pq_bits: crate::settings::set_or(self.pq_bits, defaults.pq_bits),
            pq_dim: crate::settings::set_or(self.pq_dim, defaults.pq_dim),
            vq_n_centers: crate::settings::set_or(self.vq_n_centers, defaults.vq_n_centers),
            kmeans_n_iters: crate::settings::set_or(self.kmeans_n_iters, defaults.kmeans_n_iters),
            vq_kmeans_trainset_fraction: crate::settings::set_or(self.vq_kmeans_trainset_fraction, defaults.vq_kmeans_trainset_fraction),
            pq_kmeans_trainset_fraction: crate::settings::set_or(self.pq_kmeans_trainset_fraction, defaults.pq_kmeans_trainset_fraction),
        }
    }

    fn apply(self, defaults: cuvsCagraCompressionParams) -> (r: cuvsCagraCompressionParams)
        ensures
            r == self.overridden(defaults),
    {
        cuvsCagraCompressionParams {
            pq_bits: choose_setting(self.pq_bits, defaults.pq_bits),
            pq_dim: choose_setting(self.pq_dim, defaults.pq_dim),
            vq_n_centers: choose_setting(self.vq_n_centers, defaults.vq_n_centers),
            kmeans_n_iters: choose_setting(self.kmeans_n_iters, defaults.kmeans_n_iters),
            vq_kmeans_trainset_fraction: choose_setting(self.vq_kmeans_trainset_fraction, defaults.vq_kmeans_trainset_fraction),
            pq_kmeans_trainset_fraction: choose_setting(self.pq_kmeans_trainset_fraction, defaults.pq_kmeans_trainset_fraction),
        }
    }

    /// Why the settings are refused, where they are.
    pub open spec fn violation(self) -> Option<Seq<char>> {
        match self.pq_bits {
            Some(bits) if !(4 <= bits <= 16) => Some(
                "pq_bits must be within [4, 16], got "@ + crate::text::decimal(bits as nat),
            ),
            _ => None,
        }
    }
}

/// Parameters of VPQ (vector-product quantization) compression.
///
/// Attach them to [`IndexParams`] for compressed dataset storage.
#[derive(Debug)]
pub struct CompressionParams {
    pub handle: usize,
    pub record: cuvsCagraCompressionParams,
}

impl CompressionParams {
    /// Settings of which none is given yet.
    pub fn builder() -> (r: CompressionParamsBuilder)
        ensures
            r == (CompressionParamsBuilder {
                pq_bits: None,
                pq_dim: None,
                vq_n_centers: None,
                kmeans_n_iters: None,
                vq_kmeans_trainset_fraction: None,
                pq_kmeans_trainset_fraction: None,
            }),
    {
        CompressionParamsBuilder {
            pq_bits: None,
            pq_dim: None,
            vq_n_centers: None,
            kmeans_n_iters: None,
            vq_kmeans_trainset_fraction: None,
            pq_kmeans_trainset_fraction: None,
        }
    }

    /// Takes over a record that holds the library's defaults.
    pub fn try_new(created: Result<Created<cuvsCagraCompressionParams>, LibraryError>) -> (r: Result<CompressionParams, CagraError>)
        ensures
            match created {
                Ok(c) => r matches Ok(params) && params.handle == c.handle && params.record == c.record,
                Err(e) => r == Err::<CompressionParams, CagraError>(CagraError::Library(e)),
            },
    {
        match created {
            Ok(c) => Ok(CompressionParams { handle: c.handle, record: c.record }),
            Err(e) => Err(CagraError::from(e)),
        }
    }

    /// Checks the settings before a record is made for them.
    pub fn validate(options: &CompressionParamsBuilder) -> (r: Result<(), CagraError>)
        ensures
            match options.violation() {
                Some(text) => r matches Err(CagraError::Validation(s)) && s@ == text,
                None => r is Ok,
            },
    {
        match options.pq_bits {
            Some(bits) => {
                if bits < 4 || bits > 16 {
                    return Err(
                        CagraError::Validation(with_decimal("pq_bits must be within [4, 16], got ", bits as u64)),
                    );
                }
            },
            None => {},
        }
        Ok(())
    }

    /// Checks the settings, then takes over a record and puts them into it.
    pub fn new(options: CompressionParamsBuilder, created: Result<Created<cuvsCagraCompressionParams>, LibraryError>) -> (r: Result<CompressionParams, Refused<CagraError>>)
        ensures
            match options.violation() {
                Some(text) => r matches Err(refused) && refused.error matches CagraError::Validation(s) && s@ == text,
                None => match created {
                    Err(e) => r matches Err(refused) && refused.error == CagraError::Library(e),
                    Ok(c) => r matches Ok(params) && params.handle == c.handle && params.record == options.overridden(
                        c.record,
                    ),
                },
            },
            r matches Err(refused) ==> refused.calls@ == crate::release::made(ParamsKind::CagraCompression, created),
    {
        let calls = release_made(ParamsKind::CagraCompression, &created);
        match CompressionParams::validate(&options) {
            Ok(()) => {},
            Err(error) => return Err(Refused { error, calls }),
        }
        let mut params = match CompressionParams::try_new(created) {
            Ok(params) => params,
            Err(error) => return Err(Refused { error, calls }),
        };
        params.record = options.apply(params.record);
        Ok(params)
    }

    /// Address of the record.
    pub fn handle(&self) -> (r: usize)
        ensures
            r == self.handle,
    {
        self.handle
    }

    /// The call that gives the record back. It ends the parameters, so that
    /// there is one.
    pub fn teardown(self) -> (r: Call<'static>)
        ensures
            r == (Call::ParamsDestroy { kind: ParamsKind::CagraCompression, params: self.handle }),
    {
        Call::ParamsDestroy { kind: ParamsKind::CagraCompression, params: self.handle }
    }
}

/// A setting that is not given leaves its field as the library made it.
pub proof fn unset_compression_params_keep_defaults(options: CompressionParamsBuilder, defaults: cuvsCagraCompressionParams)
    ensures
        options.pq_bits is None ==> options.overridden(defaults).pq_bits == defaults.pq_bits,
        options.pq_dim is None ==> options.overridden(defaults).pq_dim == defaults.pq_dim,
        options.vq_n_centers is None ==> options.overridden(defaults).vq_n_centers == defaults.vq_n_centers,
        options.kmeans_n_iters is None ==> options.overridden(defaults).kmeans_n_iters == defaults.kmeans_n_iters,
        options.vq_kmeans_trainset_fraction is None ==> options.overridden(defaults).vq_kmeans_trainset_fraction == defaults.vq_kmeans_trainset_fraction,
        options.pq_kmeans_trainset_fraction is None ==> options.overridden(defaults).pq_kmeans_trainset_fraction == defaults.pq_kmeans_trainset_fraction,
{
}

} // verus!

//! IVF-PQ parameters for the graph build.

use vstd::prelude::*;

use crate::binary::{Binary32, Binary64, TWO_32};
use crate::call::{Call, ParamsKind};
use crate::error::LibraryError;
use crate::ffi::{cuvsIvfPqIndexParams, cuvsIvfPqParams, cuvsIvfPqSearchParams, Created};
use crate::neighbors::cagra::CagraError;
use crate::release::Refused;
use crate::settings::choose_setting;

verus! {

/// Settings of [`IvfPqGraphBuildParams`]; one that is not given keeps the
/// library's default.
#[derive(Debug)]
pub struct IvfPqGraphBuildParamsBuilder {
    pub n_lists: Option<u32>,
    pub kmeans_n_iters: Option<u32>,
    pub kmeans_trainset_fraction: Option<Binary64>,
    pub pq_bits: Option<u32>,
    pub pq_dim: Option<u32>,
    pub n_probes: Option<u32>,
    pub refinement_rate: Option<Binary32>,
}

impl IvfPqGraphBuildParamsBuilder {
    /// The build record with each given setting in place of its default.
    pub open spec fn overridden_build(self, defaults: cuvsIvfPqIndexParams) -> cuvsIvfPqIndexParams {
        cuvsIvfPqIndexParams {
            n_lists: crate::settings::set_or(self.n_lists, defaults.n_lists),
            kmeans_n_iters: crate::settings::set_or(self.kmeans_n_iters, defaults.kmeans_n_iters),
            kmeans_trainset_fraction: crate::settings::set_or(
                self.kmeans_trainset_fraction,
                defaults.kmeans_trainset_fraction,
            ),
            pq_bits: crate::settings::set_or(self.pq_bits, defaults.pq_bits),
            pq_dim: crate::settings::set_or(self.pq_dim, defaults.pq_dim),
            ..defaults
        }
    }

    /// The search record with each given setting in place of its default.
    pub open spec fn overridden_search(self, defaults: cuvsIvfPqSearchParams) -> cuvsIvfPqSearchParams {
        cuvsIvfPqSearchParams { n_probes: crate::settings::set_or(self.n_probes, defaults.n_probes), ..defaults }
    }
}

/// IVF-PQ parameters for building the CAGRA graph: a build record, a search
/// record, and a refinement rate, tied together by a structure at `address`.
///
/// The two records are made one after the other. Until the search record is
/// there, its address is zero.
#[derive(Debug)]
pub struct IvfPqGraphBuildParams {
    pub address: usize,
    pub inner: cuvsIvfPqParams,
    pub build: cuvsIvfPqIndexParams,
    pub search: Option<cuvsIvfPqSearchParams>,
}

impl IvfPqGraphBuildParams {
    /// The structure lies somewhere: its address is not null.
    pub open spec fn placed(self) -> bool {
        self.address != 0
    }

    /// Settings of which none is given yet.
    pub fn builder() -> (r: IvfPqGraphBuildParamsBuilder)
        ensures
            r == (IvfPqGraphBuildParamsBuilder {
                n_lists: None,
                kmeans_n_iters: None,
                kmeans_trainset_fraction: None,
                pq_bits: None,
                pq_dim: None,
                n_probes: None,
                refinement_rate: None,
            }),
    {
        IvfPqGraphBuildParamsBuilder {
            n_lists: None,
            kmeans_n_iters: None,
            kmeans_trainset_fraction: None,
            pq_bits: None,
            pq_dim: None,
            n_probes: None,
            refinement_rate: None,
        }
    }

    /// Takes over the build record, with the refinement rate two and no search
    /// record yet. `address` is where the structure lies, and has to stay.
    pub fn try_new(address: usize, build: Result<Created<cuvsIvfPqIndexParams>, LibraryError>) -> (r: Result<
        IvfPqGraphBuildParams,
        CagraError,
    >)
        requires
            address != 0,
        ensures
            r matches Ok(params) ==> params.placed(),
            match build {
                Err(e) => r == Err::<IvfPqGraphBuildParams, CagraError>(CagraError::Library(e)),
                Ok(c) => r == Ok::<IvfPqGraphBuildParams, CagraError>(
                    IvfPqGraphBuildParams {
                        address,
                        inner: cuvsIvfPqParams {
                            ivf_pq_build_params: c.handle,
                            ivf_pq_search_params: 0,
                            refinement_rate: Binary32 { bits: TWO_32 },
                        },
                        build: c.record,
                        search: None,
                    },
                ),
            },
    {
        match build {
            Err(e) => Err(CagraError::from(e)),
            Ok(c) => Ok(
                IvfPqGraphBuildParams {
                    address,
                    inner: cuvsIvfPqParams {
                        ivf_pq_build_params: c.handle,
                        ivf_pq_search_params: 0,
                        refinement_rate: Binary32 { bits: TWO_32 },
                    },
                    build: c.record,
                    search: None,
                },
            ),
        }
    }

    /// Takes over the search record. Where none could be made, the build record
    /// is given back.
    pub fn with_search(self, search: Result<Created<cuvsIvfPqSearchParams>, LibraryError>) -> (r: Result<
        IvfPqGraphBuildParams,
        Refused<CagraError>,
    >)
        ensures
            r matches Ok(params) ==> params.placed() == self.placed(),
            match search {
                Err(e) => r matches Err(refused) && refused.error == CagraError::Library(e) && refused.calls@
                    == self.releases(),
                Ok(c) => r == Ok::<IvfPqGraphBuildParams, Refused<CagraError>>(
                    IvfPqGraphBuildParams {
                        inner: cuvsIvfPqParams { ivf_pq_search_params: c.handle, ..self.inner },
                        search: Some(c.record),
                        ..self
                    },
                ),
            },
    {
        match search {
            Err(e) => Err(Refused { error: CagraError::from(e), calls: self.teardown() }),
            Ok(c) => Ok(
                IvfPqGraphBuildParams {
                    address: self.address,
                    inner: cuvsIvfPqParams {
                        ivf_pq_build_params: self.inner.ivf_pq_build_params,
                        ivf_pq_search_params: c.handle,
                        refinement_rate: self.inner.refinement_rate,
                    },
                    build: self.build,
                    search: Some(c.record),
                },
            ),
        }
    }

    /// Puts the settings into parameters that hold the library's defaults.
    pub fn new(options: IvfPqGraphBuildParamsBuilder, allocated: IvfPqGraphBuildParams) -> (r: IvfPqGraphBuildParams)
        ensures
            r.address == allocated.address,
            r.placed() == allocated.placed(),
            r.inner == (cuvsIvfPqParams {
                refinement_rate: crate::settings::set_or(options.refinement_rate, allocated.inner.refinement_rate),
                ..allocated.inner
            }),
            r.build == options.overridden_build(allocated.build),
            r.search == match allocated.search {
                Some(record) => Some(options.overridden_search(record)),
                None => None,
            },
    {
        let build = cuvsIvfPqIndexParams {
            n_lists: choose_setting(options.n_lists, allocated.build.n_lists),
            kmeans_n_iters: choose_setting(options.kmeans_n_iters, allocated.build.kmeans_n_iters),
            kmeans_trainset_fraction: choose_setting(
                options.kmeans_trainset_fraction,
                allocated.build.kmeans_trainset_fraction,
            ),
            pq_bits: choose_setting(options.pq_bits, allocated.build.pq_bits),
            pq_dim: choose_setting(options.pq_dim, allocated.build.pq_dim),
            ..allocated.build
        };
        let search = match allocated.search {
            Some(record) => Some(
                cuvsIvfPqSearchParams { n_probes: choose_setting(options.n_probes, record.n_probes), ..record },
            ),
            None => None,
        };
        let inner = cuvsIvfPqParams {
            refinement_rate: choose_setting(options.refinement_rate, allocated.inner.refinement_rate),
            ..allocated.inner
        };
        IvfPqGraphBuildParams { address: allocated.address, inner, build, search }
    }

    /// Address of the structure that ties the records together.
    pub fn as_mut_ptr(&self) -> (r: usize)
        ensures
            r == self.address,
            self.placed() ==> r != 0,
    {
        self.address
    }

    /// The calls that give back what the parameters hold.
    pub open spec fn releases(self) -> Seq<Call<'static>> {
        let build = self.inner.ivf_pq_build_params;
        let search = self.inner.ivf_pq_search_params;
        (if build == 0 {
            seq![]
        } else {
            seq![Call::ParamsDestroy { kind: ParamsKind::IvfPqIndex, params: build }]
        }) + (if search == 0 {
            seq![]
        } else {
            seq![Call::ParamsDestroy { kind: ParamsKind::IvfPqSearch, params: search }]
        })
    }

    pub fn teardown(self) -> (r: Vec<Call<'static>>)
        ensures
            r@ == self.releases(),
    {
        let build: usize = self.inner.ivf_pq_build_params;
        let search: usize = self.inner.ivf_pq_search_params;
        let mut calls: Vec<Call<'static>> = Vec::new();
        if build != 0 {
            calls.push(Call::ParamsDestroy { kind: ParamsKind::IvfPqIndex, params: build });
        }
        if search != 0 {
            calls.push(Call::ParamsDestroy { kind: ParamsKind::IvfPqSearch, params: search });
        }
        assert(calls@ =~= self.releases());
        calls
    }
}

/// A setting that is not given leaves its field as the library made it; the
/// settings reach no other field.
pub proof fn unset_graph_build_params_keep_defaults(
    options: IvfPqGraphBuildParamsBuilder,
    build: cuvsIvfPqIndexParams,
    search: cuvsIvfPqSearchParams,
)
    ensures
        options.n_lists is None ==> options.overridden_build(build).n_lists == build.n_lists,
        options.kmeans_n_iters is None ==> options.overridden_build(build).kmeans_n_iters == build.kmeans_n_iters,
        options.kmeans_trainset_fraction is None ==> options.overridden_build(build).kmeans_trainset_fraction
            == build.kmeans_trainset_fraction,
        options.pq_bits is None ==> options.overridden_build(build).pq_bits == build.pq_bits,
        options.pq_dim is None ==> options.overridden_build(build).pq_dim == build.pq_dim,
        options.overridden_build(build).metric == build.metric,
        options.overridden_build(build).codebook_kind == build.codebook_kind,
        options.n_probes is None ==> options.overridden_search(search) == search,
        options.overridden_search(search).lut_dtype == search.lut_dtype,
{
}

/// A half-made pair gives back its build record alone, a whole one both, each
/// once.
pub proof fn graph_build_params_release_what_they_hold(
    half: IvfPqGraphBuildParams,
    whole: IvfPqGraphBuildParams,
    search: Created<cuvsIvfPqSearchParams>,
)
    requires
        half.inner.ivf_pq_build_params != 0,
        half.inner.ivf_pq_search_params == 0,
        search.handle != 0,
        whole.inner == (cuvsIvfPqParams { ivf_pq_search_params: search.handle, ..half.inner }),
    ensures
        half.releases() == seq![
            Call::ParamsDestroy {
                kind: ParamsKind::IvfPqIndex,
                params: half.inner.ivf_pq_build_params,
            },
        ],
        whole.releases() == seq![
            Call::ParamsDestroy {
                kind: ParamsKind::IvfPqIndex,
                params: half.inner.ivf_pq_build_params,
            },
            Call::ParamsDestroy { kind: ParamsKind::IvfPqSearch, params: search.handle },
        ],
{
    assert(half.releases() =~= seq![
        Call::ParamsDestroy { kind: ParamsKind::IvfPqIndex, params: half.inner.ivf_pq_build_params },
    ]);
    assert(whole.releases() =~= seq![
        Call::ParamsDestroy { kind: ParamsKind::IvfPqIndex, params: half.inner.ivf_pq_build_params },
        Call::ParamsDestroy { kind: ParamsKind::IvfPqSearch, params: search.handle },
    ]);
}

} // verus!

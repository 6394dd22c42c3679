//! What is made is given back: the calls of constructions, parameters and
//! settings.

use vstd::prelude::*;

use crate::call::{Call, IndexKind, ParamsKind, Work};
use crate::cluster::kmeans::{self, KMeansError};
use crate::construction::{Construction, Reply};
use crate::dlpack::DLPackError;
use crate::error::LibraryError;
use crate::ffi::{cuvsAceParams, cuvsCagraGraphBuildAlgo, cuvsCagraIndexParams, Created};
use crate::neighbors::brute_force::{self, BruteForceError};
use crate::neighbors::cagra::params::ace::AceParams;
use crate::neighbors::cagra::params::compression::CompressionParams;
use crate::neighbors::cagra::params::construct::{GraphBuildOwner, IndexParams, IndexParamsBuilder, RequestedGraphBuild};
use crate::neighbors::cagra::params::extend::ExtendParams;
use crate::neighbors::cagra::params::graph::IvfPqGraphBuildParams;
use crate::neighbors::cagra::{self, CagraError};
use crate::neighbors::filters::FilterError;
use crate::neighbors::ivf_flat::{self, IvfFlatError};
use crate::neighbors::ivf_pq::{self, IvfPqError};
use crate::neighbors::vamana::{self, VamanaError};
use crate::release::Refused;

verus! {

/// A construction first creates a handle, then does its work on that handle,
/// and is then finished with it. Where the creation fails there is nothing to
/// give back; where the work fails the handle is destroyed as what it is, except
/// a CAGRA handle, and the error is that of the work.
pub proof fn constructions_fill_and_release_one_handle<'a>(
    work: Work<'a>,
    index: usize,
    error: LibraryError,
    reply: Reply,
)
    ensures
        forall|r: Construction<'a>| #[trigger]
            call_ensures(Construction::resume, (Construction::Create { work }, Ok(index)), r) ==> (
            r matches Construction::Fill { index: i, work: w } && i == index && w == work),
        forall|r: Construction<'a>| #[trigger]
            call_ensures(Construction::resume, (Construction::Create { work }, Err(error)), r) ==> (
            r matches Construction::Done { outcome: Err(e) } && e == error),
        forall|r: Construction<'a>, answer: usize| #[trigger]
            call_ensures(Construction::resume, (Construction::Fill { index, work }, Ok(answer)), r) ==> (
            r matches Construction::Done { outcome: Ok(i) } && i == index),
        forall|r: Construction<'a>| #[trigger]
            call_ensures(Construction::resume, (Construction::Fill { index, work }, Err(error)), r) ==> if work is CagraBuild
                || work is CagraFromArgs || work is CagraDeserialize || work is CagraMerge {
                r matches Construction::Done { outcome: Err(e) } && e == error
            } else {
                r matches Construction::Release { kind, index: i, error: e } && kind == work.index_kind() && i == index
                    && e == error
            },
        forall|r: Construction<'a>, kind: IndexKind| #[trigger]
            call_ensures(Construction::resume, (Construction::Release { kind, index, error }, reply), r) ==> (
            r matches Construction::Done { outcome: Err(e) } && e == error),
{
}

/// A finished index has the handle that its construction ended with, and a
/// failed one the error.
pub proof fn finished_indices_keep_their_handle<'a>(handle: usize, error: LibraryError)
    ensures
        forall|r: Result<brute_force::Index<'a>, BruteForceError>| #[trigger]
            call_ensures(brute_force::Index::finish, (Construction::Done { outcome: Ok(handle) },), r) ==> (r matches Ok(index)
                && index.handle == handle),
        forall|r: Result<brute_force::Index<'a>, BruteForceError>| #[trigger]
            call_ensures(brute_force::Index::finish, (Construction::Done { outcome: Err(error) },), r) ==> (r matches Err(
                BruteForceError::Library(e),
            ) && e == error),
        forall|r: Result<cagra::Index<'a>, CagraError>| #[trigger]
            call_ensures(cagra::Index::finish, (Construction::Done { outcome: Ok(handle) },), r) ==> (r matches Ok(index)
                && index.handle == handle),
        forall|r: Result<cagra::Index<'a>, CagraError>| #[trigger]
            call_ensures(cagra::Index::finish, (Construction::Done { outcome: Err(error) },), r) ==> (r matches Err(
                CagraError::Library(e),
            ) && e == error),
        forall|r: Result<ivf_flat::Index, IvfFlatError>| #[trigger]
            call_ensures(ivf_flat::Index::finish, (Construction::Done { outcome: Ok(handle) },), r) ==> (r matches Ok(index)
                && index.handle == handle),
        forall|r: Result<ivf_flat::Index, IvfFlatError>| #[trigger]
            call_ensures(ivf_flat::Index::finish, (Construction::Done { outcome: Err(error) },), r) ==> (r matches Err(
                IvfFlatError::Library(e),
            ) && e == error),
        forall|r: Result<ivf_pq::Index, IvfPqError>| #[trigger]
            call_ensures(ivf_pq::Index::finish, (Construction::Done { outcome: Ok(handle) },), r) ==> (r matches Ok(index)
                && index.handle == handle),
        forall|r: Result<ivf_pq::Index, IvfPqError>| #[trigger]
            call_ensures(ivf_pq::Index::finish, (Construction::Done { outcome: Err(error) },), r) ==> (r matches Err(
                IvfPqError::Library(e),
            ) && e == error),
        forall|r: Result<vamana::Index, VamanaError>| #[trigger]
            call_ensures(vamana::Index::finish, (Construction::Done { outcome: Ok(handle) },), r) ==> (r matches Ok(index)
                && index.handle == handle),
        forall|r: Result<vamana::Index, VamanaError>| #[trigger]
            call_ensures(vamana::Index::finish, (Construction::Done { outcome: Err(error) },), r) ==> (r matches Err(
                VamanaError::Library(e),
            ) && e == error),
        forall|r: Result<ivf_pq::PrecomputedIndex<'a>, IvfPqError>| #[trigger]
            call_ensures(ivf_pq::PrecomputedIndex::finish, (Construction::Done { outcome: Ok(handle) },), r) ==> (
            r matches Ok(index) && index.index.handle == handle),
{
}

/// A record is destroyed as what it is, and once.
pub proof fn records_are_given_back(
    compression: CompressionParams,
    ace: AceParams,
    extend: ExtendParams,
    search: cagra::params::search::SearchParams,
    flat_index: ivf_flat::params::IndexParams,
    flat_search: ivf_flat::params::SearchParams,
    pq_index: ivf_pq::params::IndexParams,
    pq_search: ivf_pq::params::SearchParams,
    graph: vamana::params::IndexParams,
    r: Call<'static>,
)
    ensures
        call_ensures(CompressionParams::teardown, (compression,), r) ==> r == (Call::ParamsDestroy {
            kind: ParamsKind::CagraCompression,
            params: compression.handle,
        }),
        call_ensures(AceParams::teardown, (ace,), r) ==> r == (Call::ParamsDestroy {
            kind: ParamsKind::Ace,
            params: ace.handle,
        }),
        call_ensures(ExtendParams::teardown, (extend,), r) ==> r == (Call::ParamsDestroy {
            kind: ParamsKind::CagraExtend,
            params: extend.handle,
        }),
        call_ensures(cagra::params::search::SearchParams::teardown, (search,), r) ==> r == (Call::ParamsDestroy {
            kind: ParamsKind::CagraSearch,
            params: search.handle,
        }),
        call_ensures(ivf_flat::params::IndexParams::teardown, (flat_index,), r) ==> r == (Call::ParamsDestroy {
            kind: ParamsKind::IvfFlatIndex,
            params: flat_index.handle,
        }),
        call_ensures(ivf_flat::params::SearchParams::teardown, (flat_search,), r) ==> r == (Call::ParamsDestroy {
            kind: ParamsKind::IvfFlatSearch,
            params: flat_search.handle,
        }),
        call_ensures(ivf_pq::params::IndexParams::teardown, (pq_index,), r) ==> r == (Call::ParamsDestroy {
            kind: ParamsKind::IvfPqIndex,
            params: pq_index.handle,
        }),
        call_ensures(ivf_pq::params::SearchParams::teardown, (pq_search,), r) ==> r == (Call::ParamsDestroy {
            kind: ParamsKind::IvfPqSearch,
            params: pq_search.handle,
        }),
        call_ensures(vamana::params::IndexParams::teardown, (graph,), r) ==> r == (Call::ParamsDestroy {
            kind: ParamsKind::VamanaIndex,
            params: graph.handle,
        }),
{
}

/// A k-means record is destroyed at the first end of its parameters and at no
/// later one, and what it held can still be read.
pub proof fn kmeans_params_are_given_back_once(params: &mut kmeans::params::Params, r: Option<Call<'static>>)
    requires
        call_ensures(kmeans::params::Params::teardown, (params,), r),
    ensures
        old(params).handle != 0 ==> r == Some(
            Call::ParamsDestroy { kind: ParamsKind::KMeans, params: old(params).handle },
        ),
        old(params).handle == 0 ==> r is None,
        final(params).handle == 0,
        final(params).record == old(params).record,
{
}

/// What is to be done at the end of IVF-PQ graph-build parameters: the build
/// record is destroyed, then the search record, each where there is one.
pub open spec fn graph_ends(calls: Seq<Call<'static>>, graph: IvfPqGraphBuildParams) -> bool {
    let build = graph.inner.ivf_pq_build_params;
    let search = graph.inner.ivf_pq_search_params;
    let end_build = (Call::ParamsDestroy { kind: ParamsKind::IvfPqIndex, params: build });
    let end_search = (Call::ParamsDestroy { kind: ParamsKind::IvfPqSearch, params: search });
    &&& build != 0 && search != 0 ==> calls == seq![end_build, end_search]
    &&& build != 0 && search == 0 ==> calls == seq![end_build]
    &&& build == 0 && search != 0 ==> calls == seq![end_search]
    &&& build == 0 && search == 0 ==> calls.len() == 0
}

/// IVF-PQ graph-build parameters give back their two records.
pub proof fn graph_build_params_give_back_their_records(graph: IvfPqGraphBuildParams, r: Vec<Call<'static>>)
    requires
        call_ensures(IvfPqGraphBuildParams::teardown, (graph,), r),
    ensures
        graph_ends(r@, graph),
{
    assert(graph.releases() =~= r@);
    let build = graph.inner.ivf_pq_build_params;
    let search = graph.inner.ivf_pq_search_params;
    let end_build: Call<'static> = Call::ParamsDestroy { kind: ParamsKind::IvfPqIndex, params: build };
    let end_search: Call<'static> = Call::ParamsDestroy { kind: ParamsKind::IvfPqSearch, params: search };
    assert(build != 0 && search != 0 ==> r@ =~= seq![end_build, end_search]);
    assert(build != 0 && search == 0 ==> r@ =~= seq![end_build]);
    assert(build == 0 && search != 0 ==> r@ =~= seq![end_search]);
}

/// CAGRA build parameters end by restoring, in the record, the graph-build
/// pointer that the library had put there, under the algorithm that goes with
/// it; then the record is destroyed, then the graph-build parameters that they
/// own, then the compression parameters.
pub proof fn cagra_index_params_give_back_what_they_own(params: IndexParams, r: Vec<Call<'static>>)
    requires
        call_ensures(IndexParams::teardown, (params,), r),
    ensures
        r@.len() >= 2,
        r@[0] == (Call::CagraIndexParamsRestore {
            params: params.handle,
            graph_build_params: params.default_graph_build_params,
            build_algo: cuvsCagraGraphBuildAlgo::IVF_PQ,
        }),
        r@[1] == (Call::ParamsDestroy { kind: ParamsKind::CagraIndex, params: params.handle }),
        ({
            let compressed: int = if params.compression is Some {
                1
            } else {
                0
            };
            let owned = r@.subrange(2, r@.len() - compressed);
            &&& r@.len() >= 2 + compressed
            &&& params.compression matches Some(c) ==> r@.last() == (Call::ParamsDestroy {
                kind: ParamsKind::CagraCompression,
                params: c.handle,
            })
            &&& match params.graph_build_owner {
                None => owned.len() == 0,
                Some(GraphBuildOwner::Ace(ace)) => owned == seq![
                    Call::ParamsDestroy { kind: ParamsKind::Ace, params: ace.handle },
                ],
                Some(GraphBuildOwner::IvfPq(graph)) => graph_ends(owned, graph),
            }
        }),
{
    let compressed: int = if params.compression is Some {
        1
    } else {
        0
    };
    let owned = r@.subrange(2, r@.len() - compressed);
    match params.graph_build_owner {
        None => {
            assert(owned =~= Seq::empty());
        },
        Some(GraphBuildOwner::Ace(ace)) => {
            assert(owned =~= seq![Call::ParamsDestroy { kind: ParamsKind::Ace, params: ace.handle }]);
        },
        Some(GraphBuildOwner::IvfPq(graph)) => {
            assert(owned =~= graph.releases());
            lemma_graph_ends(graph);
        },
    }
}

/// The spelled-out end of IVF-PQ graph-build parameters is theirs.
pub proof fn lemma_graph_ends(graph: IvfPqGraphBuildParams)
    ensures
        graph_ends(graph.releases(), graph),
{
    let build = graph.inner.ivf_pq_build_params;
    let search = graph.inner.ivf_pq_search_params;
    let end_build: Call<'static> = Call::ParamsDestroy { kind: ParamsKind::IvfPqIndex, params: build };
    let end_search: Call<'static> = Call::ParamsDestroy { kind: ParamsKind::IvfPqSearch, params: search };
    assert(build != 0 && search != 0 ==> graph.releases() =~= seq![end_build, end_search]);
    assert(build != 0 && search == 0 ==> graph.releases() =~= seq![end_build]);
    assert(build == 0 && search != 0 ==> graph.releases() =~= seq![end_search]);
}

/// Settings that are given up give back the graph-build parameters that they
/// hold, then the compression parameters.
pub proof fn cagra_settings_give_back_what_they_hold<S>(options: IndexParamsBuilder<S>, r: Vec<Call<'static>>)
    requires
        call_ensures(IndexParamsBuilder::<S>::teardown, (options,), r),
    ensures
        ({
            let compressed: int = if options.compression is Some {
                1
            } else {
                0
            };
            let held = r@.take(r@.len() - compressed);
            &&& r@.len() >= compressed
            &&& options.compression matches Some(c) ==> r@.last() == (Call::ParamsDestroy {
                kind: ParamsKind::CagraCompression,
                params: c.handle,
            })
            &&& match options.graph_build {
                Some(RequestedGraphBuild::Ace(ace)) => held == seq![
                    Call::ParamsDestroy { kind: ParamsKind::Ace, params: ace.handle },
                ],
                Some(RequestedGraphBuild::IvfPq(graph)) => graph_ends(held, graph),
                _ => held.len() == 0,
            }
        }),
{
    let compressed: int = if options.compression is Some {
        1
    } else {
        0
    };
    let held = r@.take(r@.len() - compressed);
    match options.graph_build {
        Some(RequestedGraphBuild::Ace(ace)) => {
            assert(held =~= seq![Call::ParamsDestroy { kind: ParamsKind::Ace, params: ace.handle }]);
        },
        Some(RequestedGraphBuild::IvfPq(graph)) => {
            assert(held =~= graph.releases());
            lemma_graph_ends(graph);
        },
        _ => {
            assert(held =~= Seq::empty());
        },
    }
}

/// CAGRA build parameters that could not be made leave nothing behind. Refused
/// settings, or settings for which no record could be made, are given up with
/// the record if there is one; where the default ACE record failed, so is
/// everything that the half-made parameters hold.
pub proof fn refused_cagra_index_params_leave_nothing<S>(
    options: IndexParamsBuilder<S>,
    created: Result<Created<cuvsCagraIndexParams>, LibraryError>,
    default_ace: Option<Result<Created<cuvsAceParams>, LibraryError>>,
    refused: Refused<CagraError>,
)
    requires
        call_ensures(IndexParams::new::<S>, (options, created, default_ace), Err(refused)),
        default_ace is Some ==> options.graph_build == Some(RequestedGraphBuild::AceDefault) && created is Ok,
    ensures
        created matches Ok(c) ==> refused.calls@.contains(
            Call::ParamsDestroy { kind: ParamsKind::CagraIndex, params: c.handle },
        ),
        options.compression matches Some(c) ==> refused.calls@.len() > 0 && refused.calls@.last()
            == (Call::ParamsDestroy { kind: ParamsKind::CagraCompression, params: c.handle }),
        options.graph_build matches Some(RequestedGraphBuild::Ace(ace)) ==> refused.calls@.contains(
            Call::ParamsDestroy { kind: ParamsKind::Ace, params: ace.handle },
        ),
        options.graph_build matches Some(RequestedGraphBuild::IvfPq(graph)) ==> (graph.inner.ivf_pq_build_params != 0
            ==> refused.calls@.contains(
            Call::ParamsDestroy { kind: ParamsKind::IvfPqIndex, params: graph.inner.ivf_pq_build_params },
        )) && (graph.inner.ivf_pq_search_params != 0 ==> refused.calls@.contains(
            Call::ParamsDestroy { kind: ParamsKind::IvfPqSearch, params: graph.inner.ivf_pq_search_params },
        )),
{
    let calls = refused.calls@;
    if default_ace is Some {
        let c = created->Ok_0;
        let held = (IndexParams { compression: options.compression, ..IndexParams::fresh(c) }).releases();
        assert(calls == held);
        assert(held[1] == (Call::ParamsDestroy { kind: ParamsKind::CagraIndex, params: c.handle }));
    } else {
        let made = crate::release::made(ParamsKind::CagraIndex, created);
        let held = options.releases();
        assert(calls == made + held);
        if created is Ok {
            assert(calls[0] == made[0]);
        }
        match options.graph_build {
            Some(RequestedGraphBuild::Ace(ace)) => {
                assert(calls[made.len() as int] == held[0]);
            },
            Some(RequestedGraphBuild::IvfPq(graph)) => {
                let build = graph.inner.ivf_pq_build_params;
                let search = graph.inner.ivf_pq_search_params;
                let first: int = if build != 0 {
                    1
                } else {
                    0
                };
                if build != 0 {
                    assert(calls[made.len() as int] == held[0]);
                    assert(held[0] == graph.releases()[0]);
                }
                if search != 0 {
                    assert(calls[made.len() + first] == held[first]);
                    assert(held[first] == graph.releases()[first]);
                }
            },
            _ => {},
        }
    }
}

/// The messages of errors: the library's own text, that of the tensor error, a
/// fixed one for a path, and the reason behind a fixed head for a setting.
pub proof fn errors_tell_their_reason(
    library: LibraryError,
    tensor: DLPackError,
    nul: crate::path::NulError,
    reason: String,
    text: String,
    told: String,
)
    requires
        call_ensures(DLPackError::to_string, (&tensor,), told),
    ensures
        call_ensures(LibraryError::to_string, (&library,), text) ==> text@ == library.0@,
        call_ensures(KMeansError::to_string, (&KMeansError::Library(library),), text) ==> text@ == library.0@,
        call_ensures(KMeansError::to_string, (&KMeansError::DLPack(tensor),), text) ==> text@ == told@,
        call_ensures(KMeansError::to_string, (&KMeansError::Validation(reason),), text) ==> text@ == "invalid parameter: "@ + reason@,
        call_ensures(BruteForceError::to_string, (&BruteForceError::Library(library),), text) ==> text@ == library.0@,
        call_ensures(BruteForceError::to_string, (&BruteForceError::DLPack(tensor),), text) ==> text@ == told@,
        call_ensures(BruteForceError::to_string, (&BruteForceError::InvalidPath(nul),), text) ==> text@ == "path contains interior NUL byte"@,
        call_ensures(CagraError::to_string, (&CagraError::Library(library),), text) ==> text@ == library.0@,
        call_ensures(CagraError::to_string, (&CagraError::DLPack(tensor),), text) ==> text@ == told@,
        call_ensures(CagraError::to_string, (&CagraError::InvalidPath(nul),), text) ==> text@ == "path contains interior NUL byte"@,
        call_ensures(CagraError::to_string, (&CagraError::Validation(reason),), text) ==> text@ == "invalid parameter: "@ + reason@,
        call_ensures(IvfFlatError::to_string, (&IvfFlatError::Library(library),), text) ==> text@ == library.0@,
        call_ensures(IvfFlatError::to_string, (&IvfFlatError::DLPack(tensor),), text) ==> text@ == told@,
        call_ensures(IvfFlatError::to_string, (&IvfFlatError::InvalidPath(nul),), text) ==> text@ == "path contains interior NUL byte"@,
        call_ensures(IvfFlatError::to_string, (&IvfFlatError::Validation(reason),), text) ==> text@ == "invalid parameter: "@ + reason@,
        call_ensures(IvfPqError::to_string, (&IvfPqError::Library(library),), text) ==> text@ == library.0@,
        call_ensures(IvfPqError::to_string, (&IvfPqError::DLPack(tensor),), text) ==> text@ == told@,
        call_ensures(IvfPqError::to_string, (&IvfPqError::InvalidPath(nul),), text) ==> text@ == "path contains interior NUL byte"@,
        call_ensures(IvfPqError::to_string, (&IvfPqError::Validation(reason),), text) ==> text@ == "invalid parameter: "@ + reason@,
        call_ensures(VamanaError::to_string, (&VamanaError::Library(library),), text) ==> text@ == library.0@,
        call_ensures(VamanaError::to_string, (&VamanaError::DLPack(tensor),), text) ==> text@ == told@,
        call_ensures(VamanaError::to_string, (&VamanaError::InvalidPath(nul),), text) ==> text@ == "path contains interior NUL byte"@,
        call_ensures(VamanaError::to_string, (&VamanaError::Validation(reason),), text) ==> text@ == "invalid parameter: "@ + reason@,
        call_ensures(FilterError::to_string, (&FilterError::Conversion(tensor),), text) ==> text@ == told@,
        tensor matches DLPackError::UnsupportedDevice(name) ==> told@ == "unsupported tensor device: "@ + name@,
        tensor matches DLPackError::UnsupportedDType(name) ==> told@ == "unsupported tensor dtype: "@ + name@,
        tensor matches DLPackError::StridesLenMismatch { ndim, strides } ==> told@ == "strides length "@
            + crate::text::decimal(strides as nat) + " does not match tensor rank "@ + crate::text::decimal(ndim as nat),
        tensor matches DLPackError::InvalidMetadata(why) ==> told@ == "invalid DLPack metadata: "@ + why@,
{
}

} // verus!

//! Parameters for building a CAGRA index.

use std::marker::PhantomData;

use vstd::prelude::*;
use vstd::string::*;

use crate::call::{Call, ParamsKind};
use crate::distance::DistanceType;
use crate::error::LibraryError;
use crate::ffi::{
    cuvsAceParams, cuvsCagraGraphBuildAlgo, cuvsCagraHnswHeuristicType, cuvsCagraIndexParams, cuvsDistanceType,
    Created,
};
use crate::neighbors::cagra::{CagraError, GraphBuildAlgo, HnswHeuristicType};
use crate::release::{release_made, Refused};
use crate::settings::choose_setting;
use crate::text::push_decimal;

use super::ace::AceParams;
use super::compression::CompressionParams;
use super::graph::IvfPqGraphBuildParams;

verus! {

/// How the caller wants the graph to be built.
#[derive(Debug)]
pub enum RequestedGraphBuild {
    Auto,
    NnDescent { nn_descent_niter: Option<usize> },
    IterativeCagraSearch,
    AceDefault,
    Ace(AceParams),
    IvfPqDefault,
    IvfPq(IvfPqGraphBuildParams),
}

impl RequestedGraphBuild {
    /// The calls that give back the parameters that came with the request.
    pub open spec fn releases(self) -> Seq<Call<'static>> {
        match self {
            RequestedGraphBuild::Ace(ace) => seq![Call::ParamsDestroy { kind: ParamsKind::Ace, params: ace.handle }],
            RequestedGraphBuild::IvfPq(ivf_pq) => ivf_pq.releases(),
            _ => seq![],
        }
    }

    fn teardown(self) -> (r: Vec<Call<'static>>)
        ensures
            r@ == self.releases(),
    {
        match self {
            RequestedGraphBuild::Ace(ace) => {
                let mut calls: Vec<Call<'static>> = Vec::new();
                calls.push(ace.teardown());
                assert(calls@ =~= self.releases());
                calls
            },
            RequestedGraphBuild::IvfPq(ivf_pq) => ivf_pq.teardown(),
            _ => Vec::new(),
        }
    }
}

/// The call that gives back compression parameters, where there are any.
pub open spec fn compression_releases(compression: Option<CompressionParams>) -> Seq<Call<'static>> {
    match compression {
        Some(c) => seq![Call::ParamsDestroy { kind: ParamsKind::CagraCompression, params: c.handle }],
        None => seq![],
    }
}

/// Graph-build parameters that belong to the index parameters.
#[derive(Debug)]
pub enum GraphBuildOwner {
    Ace(AceParams),
    IvfPq(IvfPqGraphBuildParams),
}

impl GraphBuildOwner {
    /// Where the parameters lie.
    pub open spec fn address(self) -> usize {
        match self {
            GraphBuildOwner::Ace(ace) => ace.handle,
            GraphBuildOwner::IvfPq(ivf_pq) => ivf_pq.address,
        }
    }

    /// The algorithm that reads the parameters.
    pub open spec fn algo(self) -> GraphBuildAlgo {
        match self {
            GraphBuildOwner::Ace(_) => GraphBuildAlgo::Ace,
            GraphBuildOwner::IvfPq(_) => GraphBuildAlgo::IvfPq,
        }
    }

    pub fn as_mut_ptr(&self) -> (r: usize)
        ensures
            r == self.address(),
    {
        match self {
            GraphBuildOwner::Ace(ace) => ace.handle(),
            GraphBuildOwner::IvfPq(ivf_pq) => ivf_pq.as_mut_ptr(),
        }
    }

    /// The calls that give back what the parameters hold.
    pub open spec fn releases(self) -> Seq<Call<'static>> {
        match self {
            GraphBuildOwner::Ace(ace) => seq![Call::ParamsDestroy { kind: ParamsKind::Ace, params: ace.handle }],
            GraphBuildOwner::IvfPq(ivf_pq) => ivf_pq.releases(),
        }
    }

    pub fn teardown(self) -> (r: Vec<Call<'static>>)
        ensures
            r@ == self.releases(),
    {
        match self {
            GraphBuildOwner::Ace(ace) => {
                let mut calls: Vec<Call<'static>> = Vec::new();
                calls.push(ace.teardown());
                assert(calls@ =~= self.releases());
                calls
            },
            GraphBuildOwner::IvfPq(ivf_pq) => ivf_pq.teardown(),
        }
    }
}

/// The calls that give back graph-build parameters, where there are any.
pub open spec fn owner_releases(owner: Option<GraphBuildOwner>) -> Seq<Call<'static>> {
    match owner {
        Some(o) => o.releases(),
        None => seq![],
    }
}

/// State of a builder to which no graph-build strategy has been given.
#[derive(Debug)]
pub struct GraphBuildUnset;

/// State of a builder that has its graph-build strategy.
#[derive(Debug)]
pub struct GraphBuildSet;

/// Settings of [`IndexParams`]; one that is not given keeps the library's
/// default.
///
/// The graph-build strategy is given by one of the methods, which are there
/// only while none has been given.
#[derive(Debug)]
pub struct IndexParamsBuilder<S> {
    pub metric: Option<DistanceType>,
    pub intermediate_graph_degree: Option<usize>,
    pub graph_degree: Option<usize>,
    pub compression: Option<CompressionParams>,
    pub graph_build: Option<RequestedGraphBuild>,
    pub state: PhantomData<S>,
}

impl<S> IndexParamsBuilder<S> {
    /// Everything but the strategy is as in another builder.
    pub open spec fn same_settings<T>(self, other: IndexParamsBuilder<T>) -> bool {
        &&& self.metric == other.metric
        &&& self.intermediate_graph_degree == other.intermediate_graph_degree
        &&& self.graph_degree == other.graph_degree
        &&& self.compression == other.compression
    }

    /// Why the settings are refused, where they are. The first rule that is
    /// broken decides.
    pub open spec fn violation(self) -> Option<Seq<char>> {
        if self.graph_degree == Some(0usize) {
            Some("graph_degree must be > 0"@)
        } else if self.intermediate_graph_degree is Some && self.graph_degree is Some
            && self.intermediate_graph_degree->0 < self.graph_degree->0 {
            Some(
                "intermediate_graph_degree ("@ + crate::text::decimal(self.intermediate_graph_degree->0 as nat)
                    + ") must be >= graph_degree ("@ + crate::text::decimal(self.graph_degree->0 as nat) + ")"@,
            )
        } else if self.graph_build == Some(RequestedGraphBuild::NnDescent { nn_descent_niter: Some(0usize) }) {
            Some("nn_descent_niter must be > 0"@)
        } else if self.compression is Some && self.metric is Some && self.metric->0 != DistanceType::L2Expanded {
            Some("VPQ compression is only supported with L2Expanded distance metric"@)
        } else {
            None
        }
    }

    /// The record with each given setting but the strategy in place of its
    /// default.
    pub open spec fn overridden(self, defaults: cuvsCagraIndexParams) -> cuvsCagraIndexParams {
        cuvsCagraIndexParams {
            metric: match self.metric {
                Some(v) => v.code(),
                None => defaults.metric,
            },
            intermediate_graph_degree: crate::settings::set_or(
                self.intermediate_graph_degree,
                defaults.intermediate_graph_degree,
            ),
            graph_degree: crate::settings::set_or(self.graph_degree, defaults.graph_degree),
            compression: match self.compression {
                Some(v) => v.handle,
                None => defaults.compression,
            },
            ..defaults
        }
    }

    /// The calls that give back the parameters that came with the settings.
    pub open spec fn releases(self) -> Seq<Call<'static>> {
        (match self.graph_build {
            Some(request) => request.releases(),
            None => seq![],
        }) + compression_releases(self.compression)
    }

    /// Gives the settings up, and with them the parameters that they hold.
    pub fn teardown(self) -> (r: Vec<Call<'static>>)
        ensures
            r@ == self.releases(),
    {
        let mut calls = match self.graph_build {
            Some(request) => request.teardown(),
            None => Vec::new(),
        };
        match self.compression {
            Some(compression) => {
                calls.push(compression.teardown());
            },
            None => {},
        }
        assert(calls@ =~= self.releases());
        calls
    }

    /// Whether the strategy needs ACE parameters that the library fills in.
    pub fn needs_default_ace(&self) -> (r: bool)
        ensures
            r == (self.graph_build == Some(RequestedGraphBuild::AceDefault)),
    {
        match &self.graph_build {
            Some(RequestedGraphBuild::AceDefault) => true,
            _ => false,
        }
    }
}

impl IndexParamsBuilder<GraphBuildUnset> {
    fn graph_build_internal(self, request: RequestedGraphBuild) -> (r: IndexParamsBuilder<GraphBuildSet>)
        ensures
            r.graph_build == Some(request),
            r.same_settings(self),
    {
        IndexParamsBuilder {
            metric: self.metric,
            intermediate_graph_degree: self.intermediate_graph_degree,
            graph_degree: self.graph_degree,
            compression: self.compression,
            graph_build: Some(request),
            state: PhantomData,
        }
    }

    /// Use the library's automatic graph-build selection.
    pub fn auto(self) -> (r: IndexParamsBuilder<GraphBuildSet>)
        ensures
            r.graph_build == Some(RequestedGraphBuild::Auto),
            r.same_settings(self),
    {
        self.graph_build_internal(RequestedGraphBuild::Auto)
    }

    /// Build the graph with NN-Descent using the library defaults.
    pub fn nn_descent(self) -> (r: IndexParamsBuilder<GraphBuildSet>)
        ensures
            r.graph_build == Some(RequestedGraphBuild::NnDescent { nn_descent_niter: None }),
            r.same_settings(self),
    {
        self.graph_build_internal(RequestedGraphBuild::NnDescent { nn_descent_niter: None })
    }

    /// Build the graph with NN-Descent and an explicit iteration count.
    pub fn nn_descent_with(self, iterations: usize) -> (r: IndexParamsBuilder<GraphBuildSet>)
        ensures
            r.graph_build == Some(RequestedGraphBuild::NnDescent { nn_descent_niter: Some(iterations) }),
            r.same_settings(self),
    {
        self.graph_build_internal(RequestedGraphBuild::NnDescent { nn_descent_niter: Some(iterations) })
    }

    /// Build the graph using iterative CAGRA search.
    pub fn iterative_cagra_search(self) -> (r: IndexParamsBuilder<GraphBuildSet>)
        ensures
            r.graph_build == Some(RequestedGraphBuild::IterativeCagraSearch),
            r.same_settings(self),
    {
        self.graph_build_internal(RequestedGraphBuild::IterativeCagraSearch)
    }

    /// Build the graph with ACE using the library defaults.
    pub fn ace(self) -> (r: IndexParamsBuilder<GraphBuildSet>)
        ensures
            r.graph_build == Some(RequestedGraphBuild::AceDefault),
            r.same_settings(self),
    {
        self.graph_build_internal(RequestedGraphBuild::AceDefault)
    }

    /// Build the graph with explicit ACE parameters.
    pub fn ace_with(self, params: AceParams) -> (r: IndexParamsBuilder<GraphBuildSet>)
        ensures
            r.graph_build == Some(RequestedGraphBuild::Ace(params)),
            r.same_settings(self),
    {
        self.graph_build_internal(RequestedGraphBuild::Ace(params))
    }

    /// Build the graph with IVF-PQ using the library defaults.
    pub fn ivf_pq(self) -> (r: IndexParamsBuilder<GraphBuildSet>)
        ensures
            r.graph_build == Some(RequestedGraphBuild::IvfPqDefault),
            r.same_settings(self),
    {
        self.graph_build_internal(RequestedGraphBuild::IvfPqDefault)
    }

    /// Build the graph with explicit IVF-PQ graph-build parameters.
    pub fn ivf_pq_with(self, params: IvfPqGraphBuildParams) -> (r: IndexParamsBuilder<GraphBuildSet>)
        ensures
            r.graph_build == Some(RequestedGraphBuild::IvfPq(params)),
            r.same_settings(self),
    {
        self.graph_build_internal(RequestedGraphBuild::IvfPq(params))
    }
}

/// Parameters for building a CAGRA index.
///
/// `record` is what the C library's record holds. Its graph-build pointer is
/// one of three: the library's own (`default_graph_build_params`), null, or the
/// address of the parameters in `graph_build_owner`.
#[derive(Debug)]
pub struct IndexParams {
    pub handle: usize,
    pub record: cuvsCagraIndexParams,
    pub default_graph_build_params: usize,
    pub graph_build_owner: Option<GraphBuildOwner>,
    pub compression: Option<CompressionParams>,
}

impl IndexParams {
    /// Parameters as the library makes them.
    pub open spec fn fresh(created: Created<cuvsCagraIndexParams>) -> IndexParams {
        IndexParams {
            handle: created.handle,
            record: created.record,
            default_graph_build_params: created.record.graph_build_params,
            graph_build_owner: None,
            compression: None,
        }
    }

    /// What the record points at belongs to these parameters: the compression
    /// record, and the graph-build parameters, which are those that the chosen
    /// algorithm reads.
    pub open spec fn consistent(self) -> bool {
        &&& self.compression matches Some(c) ==> self.record.compression == c.handle
        &&& match self.graph_build_owner {
            Some(owner) => self.record.graph_build_params == owner.address() && self.record.build_algo
                == owner.algo().code(),
            None => self.record.graph_build_params == 0 || self.record.graph_build_params
                == self.default_graph_build_params,
        }
    }

    /// The parameters with another algorithm, pointer and owner.
    pub open spec fn rebuilt(self, algo: GraphBuildAlgo, pointer: usize, owner: Option<GraphBuildOwner>) -> IndexParams {
        IndexParams {
            record: cuvsCagraIndexParams { build_algo: algo.code(), graph_build_params: pointer, ..self.record },
            graph_build_owner: owner,
            ..self
        }
    }

    /// The parameters after a strategy has been put into them. `ace` is the
    /// record made for default ACE parameters.
    pub open spec fn with_strategy(
        self,
        strategy: Option<RequestedGraphBuild>,
        ace: Created<cuvsAceParams>,
    ) -> IndexParams {
        match strategy {
            None => self,
            Some(RequestedGraphBuild::Auto) => self.rebuilt(GraphBuildAlgo::Auto, 0, None),
            Some(RequestedGraphBuild::NnDescent { nn_descent_niter }) => {
                let rebuilt = self.rebuilt(GraphBuildAlgo::NnDescent, 0, None);
                IndexParams {
                    record: cuvsCagraIndexParams {
                        nn_descent_niter: crate::settings::set_or(nn_descent_niter, self.record.nn_descent_niter),
                        ..rebuilt.record
                    },
                    ..rebuilt
                }
            },
            Some(RequestedGraphBuild::IterativeCagraSearch) => self.rebuilt(
                GraphBuildAlgo::IterativeCagraSearch,
                0,
                None,
            ),
            Some(RequestedGraphBuild::AceDefault) => self.rebuilt(
                GraphBuildAlgo::Ace,
                ace.handle,
                Some(GraphBuildOwner::Ace(AceParams { handle: ace.handle, record: ace.record })),
            ),
            Some(RequestedGraphBuild::Ace(params)) => self.rebuilt(
                GraphBuildAlgo::Ace,
                params.handle,
                Some(GraphBuildOwner::Ace(params)),
            ),
            Some(RequestedGraphBuild::IvfPqDefault) => self.rebuilt(
                GraphBuildAlgo::IvfPq,
                self.default_graph_build_params,
                None,
            ),
            Some(RequestedGraphBuild::IvfPq(params)) => self.rebuilt(
                GraphBuildAlgo::IvfPq,
                params.address,
                Some(GraphBuildOwner::IvfPq(params)),
            ),
        }
    }

    /// The calls that give back what a strategy replaces.
    pub open spec fn replaced(self, strategy: Option<RequestedGraphBuild>) -> Seq<Call<'static>> {
        match strategy {
            Some(_) => owner_releases(self.graph_build_owner),
            None => seq![],
        }
    }

    /// Settings of which none is given yet.
    pub fn builder() -> (r: IndexParamsBuilder<GraphBuildUnset>)
        ensures
            r.metric is None,
            r.intermediate_graph_degree is None,
            r.graph_degree is None,
            r.compression is None,
            r.graph_build is None,
    {
        IndexParamsBuilder {
            metric: None,
            intermediate_graph_degree: None,
            graph_degree: None,
            compression: None,
            graph_build: None,
            state: PhantomData,
        }
    }

    /// Takes over a record that holds the library's defaults.
    pub fn try_new(created: Result<Created<cuvsCagraIndexParams>, LibraryError>) -> (r: Result<
        IndexParams,
        CagraError,
    >)
        ensures
            match created {
                Ok(c) => r == Ok::<IndexParams, CagraError>(IndexParams::fresh(c)),
                Err(e) => r == Err::<IndexParams, CagraError>(CagraError::Library(e)),
            },
    {
        match created {
            Ok(c) => Ok(
                IndexParams {
                    handle: c.handle,
                    record: c.record,
                    default_graph_build_params: c.record.graph_build_params,
                    graph_build_owner: None,
                    compression: None,
                },
            ),
            Err(e) => Err(CagraError::from(e)),
        }
    }

    /// Checks the settings before a record is made for them.
    pub fn validate<S>(options: &IndexParamsBuilder<S>) -> (r: Result<(), CagraError>)
        ensures
            match options.violation() {
                Some(text) => r matches Err(CagraError::Validation(s)) && s@ == text,
                None => r is Ok,
            },
    {
        match options.graph_degree {
            Some(degree) => {
                if degree == 0 {
                    return Err(CagraError::Validation(String::from_str("graph_degree must be > 0")));
                }
                match options.intermediate_graph_degree {
                    Some(intermediate) => {
                        if intermediate < degree {
                            let mut text = String::from_str("intermediate_graph_degree (");
                            push_decimal(&mut text, intermediate as u64);
                            text.append(") must be >= graph_degree (");
                            push_decimal(&mut text, degree as u64);
                            text.append(")");
                            return Err(CagraError::Validation(text));
                        }
                    },
                    None => {},
                }
            },
            None => {},
        }
        match &options.graph_build {
            Some(RequestedGraphBuild::NnDescent { nn_descent_niter: Some(n) }) => {
                if *n == 0 {
                    return Err(CagraError::Validation(String::from_str("nn_descent_niter must be > 0")));
                }
            },
            _ => {},
        }
        let metric_supports_compression = match options.metric {
            Some(v) => v == DistanceType::L2Expanded,
            None => true,
        };
        if options.compression.is_some() && !metric_supports_compression {
            return Err(
                CagraError::Validation(
                    String::from_str("VPQ compression is only supported with L2Expanded distance metric"),
                ),
            );
        }
        Ok(())
    }

    /// Checks the settings, then takes over a record and puts them into it.
    ///
    /// `default_ace` answers the request for an ACE record, which is made where
    /// the settings ask for the default ACE parameters.
    pub fn new<S>(
        options: IndexParamsBuilder<S>,
        created: Result<Created<cuvsCagraIndexParams>, LibraryError>,
        default_ace: Option<Result<Created<cuvsAceParams>, LibraryError>>,
    ) -> (r: Result<IndexParams, Refused<CagraError>>)
        requires
            default_ace is Some <==> options.violation() is None && created is Ok && options.graph_build == Some(
                RequestedGraphBuild::AceDefault,
            ),
        ensures
            match options.violation() {
                Some(text) => r matches Err(refused) && refused.error matches CagraError::Validation(s) && s@ == text,
                None => match created {
                    Err(e) => r matches Err(refused) && refused.error == CagraError::Library(e),
                    Ok(c) => {
                        if default_ace is Some && default_ace->0 is Err {
                            r matches Err(refused) && refused.error == CagraError::Library(default_ace->0->Err_0)
                        } else {
                            r == Ok::<IndexParams, Refused<CagraError>>(
                                (IndexParams {
                                    record: options.overridden(c.record),
                                    compression: options.compression,
                                    ..IndexParams::fresh(c)
                                }).with_strategy(options.graph_build, default_ace->0->Ok_0),
                            )
                        }
                    },
                },
            },
            r matches Ok(params) ==> params.consistent(),
            r matches Err(refused) ==> if default_ace is Some {
                refused.calls@ == (IndexParams {
                    compression: options.compression,
                    ..IndexParams::fresh(created->Ok_0)
                }).releases()
            } else {
                refused.calls@ == crate::release::made(ParamsKind::CagraIndex, created) + options.releases()
            },
    {
        let mut calls = release_made(ParamsKind::CagraIndex, &created);
        match IndexParams::validate(&options) {
            Ok(()) => {},
            Err(error) => {
                let mut more = options.teardown();
                calls.append(&mut more);
                return Err(Refused { error, calls });
            },
        }
        let mut params = match IndexParams::try_new(created) {
            Ok(params) => params,
            Err(error) => {
                let mut more = options.teardown();
                calls.append(&mut more);
                return Err(Refused { error, calls });
            },
        };
        match options.metric {
            Some(v) => {
                params.record.metric = cuvsDistanceType::from(v);
            },
            None => {},
        }
        match options.intermediate_graph_degree {
            Some(v) => {
                params.record.intermediate_graph_degree = v;
            },
            None => {},
        }
        match options.graph_degree {
            Some(v) => {
                params.record.graph_degree = v;
            },
            None => {},
        }
        match options.compression {
            Some(compression) => {
                params.record.compression = compression.handle();
                params.compression = Some(compression);
            },
            None => {},
        }
        match params.apply_graph_build(options.graph_build, default_ace) {
            // Fresh parameters own none that could be replaced.
            Ok(_) => Ok(params),
            Err(error) => Err(Refused { error, calls: params.teardown() }),
        }
    }

    /// Puts a graph-build strategy into the parameters. The calls that come
    /// back give up the graph-build parameters that it replaced.
    ///
    /// The pointer in the record is set together with what it points at:
    /// custom parameters move into the index parameters, the IVF-PQ default
    /// reuses what the library allocated, and an algorithm without parameters
    /// gets a null pointer.
    pub fn apply_graph_build(
        &mut self,
        graph_build: Option<RequestedGraphBuild>,
        default_ace: Option<Result<Created<cuvsAceParams>, LibraryError>>,
    ) -> (r: Result<Vec<Call<'static>>, CagraError>)
        requires
            default_ace is Some <==> graph_build == Some(RequestedGraphBuild::AceDefault),
        ensures
            if graph_build == Some(RequestedGraphBuild::AceDefault) && default_ace->0 is Err {
                &&& r == Err::<Vec<Call<'static>>, CagraError>(CagraError::Library(default_ace->0->Err_0))
                &&& *final(self) == *old(self)
            } else {
                &&& r matches Ok(calls) && calls@ == old(self).replaced(graph_build)
                &&& *final(self) == old(self).with_strategy(graph_build, default_ace->0->Ok_0)
            },
    {
        let request = match graph_build {
            Some(request) => request,
            None => return Ok(Vec::new()),
        };
        let replaced = match request {
            RequestedGraphBuild::Auto => {
                self.record.build_algo = cuvsCagraGraphBuildAlgo::from(GraphBuildAlgo::Auto);
                self.record.graph_build_params = 0;
                self.disown()
            },
            RequestedGraphBuild::NnDescent { nn_descent_niter } => {
                self.record.build_algo = cuvsCagraGraphBuildAlgo::from(GraphBuildAlgo::NnDescent);
                self.record.graph_build_params = 0;
                self.record.nn_descent_niter = choose_setting(nn_descent_niter, self.record.nn_descent_niter);
                self.disown()
            },
            RequestedGraphBuild::IterativeCagraSearch => {
                self.record.build_algo = cuvsCagraGraphBuildAlgo::from(GraphBuildAlgo::IterativeCagraSearch);
                self.record.graph_build_params = 0;
                self.disown()
            },
            RequestedGraphBuild::AceDefault => {
                let created = match default_ace {
                    Some(created) => created,
                    None => return Ok(Vec::new()),
                };
                let ace = match AceParams::try_new(created) {
                    Ok(ace) => ace,
                    Err(e) => return Err(e),
                };
                self.own(GraphBuildAlgo::Ace, GraphBuildOwner::Ace(ace))
            },
            RequestedGraphBuild::Ace(ace) => {
                self.own(GraphBuildAlgo::Ace, GraphBuildOwner::Ace(ace))
            },
            RequestedGraphBuild::IvfPqDefault => {
                self.record.build_algo = cuvsCagraGraphBuildAlgo::from(GraphBuildAlgo::IvfPq);
                self.record.graph_build_params = self.default_graph_build_params;
                self.disown()
            },
            RequestedGraphBuild::IvfPq(ivf_pq) => {
                self.own(GraphBuildAlgo::IvfPq, GraphBuildOwner::IvfPq(ivf_pq))
            },
        };
        Ok(replaced)
    }

    /// Gives up the graph-build parameters that there are.
    fn disown(&mut self) -> (r: Vec<Call<'static>>)
        ensures
            *final(self) == (IndexParams { graph_build_owner: None, ..*old(self) }),
            r@ == owner_releases(old(self).graph_build_owner),
    {
        match self.graph_build_owner.take() {
            Some(owner) => owner.teardown(),
            None => Vec::new(),
        }
    }

    /// Takes graph-build parameters over and points the record at them.
    fn own(&mut self, algo: GraphBuildAlgo, owner: GraphBuildOwner) -> (r: Vec<Call<'static>>)
        ensures
            *final(self) == old(self).rebuilt(algo, owner.address(), Some(owner)),
            r@ == owner_releases(old(self).graph_build_owner),
    {
        let replaced = self.disown();
        self.record.build_algo = cuvsCagraGraphBuildAlgo::from(algo);
        self.record.graph_build_params = owner.as_mut_ptr();
        self.graph_build_owner = Some(owner);
        replaced
    }

    /// Why HNSW parameters are refused, where they are.
    pub open spec fn hnsw_violation(n_rows: i64, dim: i64, m: i32, ef_construction: i32) -> Option<Seq<char>> {
        if n_rows <= 0 {
            Some("n_rows must be > 0"@)
        } else if dim <= 0 {
            Some("dim must be > 0"@)
        } else if m <= 0 {
            Some("m must be > 0"@)
        } else if ef_construction <= 0 {
            Some("ef_construction must be > 0"@)
        } else {
            None
        }
    }

    /// Checks HNSW parameters before a record is made for them.
    pub fn validate_hnsw_params(n_rows: i64, dim: i64, m: i32, ef_construction: i32) -> (r: Result<(), CagraError>)
        ensures
            match IndexParams::hnsw_violation(n_rows, dim, m, ef_construction) {
                Some(text) => r matches Err(CagraError::Validation(s)) && s@ == text,
                None => r is Ok,
            },
    {
        if n_rows <= 0 {
            return Err(CagraError::Validation(String::from_str("n_rows must be > 0")));
        }
        if dim <= 0 {
            return Err(CagraError::Validation(String::from_str("dim must be > 0")));
        }
        if m <= 0 {
            return Err(CagraError::Validation(String::from_str("m must be > 0")));
        }
        if ef_construction <= 0 {
            return Err(CagraError::Validation(String::from_str("ef_construction must be > 0")));
        }
        Ok(())
    }

    /// Parameters that are to be derived from HNSW parameters, with the call
    /// that does so. It sets the algorithm, both degrees and the graph-build
    /// pointer in the record.
    pub fn from_hnsw_params(
        n_rows: i64,
        dim: i64,
        m: i32,
        ef_construction: i32,
        heuristic: HnswHeuristicType,
        metric: DistanceType,
        created: Result<Created<cuvsCagraIndexParams>, LibraryError>,
    ) -> (r: Result<(IndexParams, Call<'static>), Refused<CagraError>>)
        ensures
            match IndexParams::hnsw_violation(n_rows, dim, m, ef_construction) {
                Some(text) => r matches Err(refused) && refused.error matches CagraError::Validation(s) && s@ == text,
                None => match created {
                    Err(e) => r matches Err(refused) && refused.error == CagraError::Library(e),
                    Ok(c) => r == Ok::<(IndexParams, Call<'static>), Refused<CagraError>>(
                        (
                            IndexParams::fresh(c),
                            Call::CagraIndexParamsFromHnswParams {
                                params: c.handle,
                                n_rows,
                                dim,
                                m,
                                ef_construction,
                                heuristic: heuristic.code(),
                                metric: metric.code(),
                            },
                        ),
                    ),
                },
            },
            r matches Err(refused) ==> refused.calls@ == crate::release::made(ParamsKind::CagraIndex, created),
    {
        let calls = release_made(ParamsKind::CagraIndex, &created);
        match IndexParams::validate_hnsw_params(n_rows, dim, m, ef_construction) {
            Ok(()) => {},
            Err(error) => return Err(Refused { error, calls }),
        }
        let params = match IndexParams::try_new(created) {
            Ok(params) => params,
            Err(error) => return Err(Refused { error, calls }),
        };
        let call = Call::CagraIndexParamsFromHnswParams {
            params: params.handle,
            n_rows,
            dim,
            m,
            ef_construction,
            heuristic: cuvsCagraHnswHeuristicType::from(heuristic),
            metric: cuvsDistanceType::from(metric),
        };
        Ok((params, call))
    }

    /// The parameters once the library has derived them; `reply` is the record
    /// as it stands then.
    pub fn hnsw_params_derived(self, reply: Result<cuvsCagraIndexParams, LibraryError>) -> (r: Result<
        IndexParams,
        Refused<CagraError>,
    >)
        ensures
            match reply {
                Ok(record) => r == Ok::<IndexParams, Refused<CagraError>>(IndexParams { record, ..self }),
                Err(e) => r matches Err(refused) && refused.error == CagraError::Library(e) && refused.calls@
                    == self.releases(),
            },
    {
        match reply {
            Ok(record) => {
                let mut params = self;
                params.record = record;
                Ok(params)
            },
            Err(e) => Err(Refused { error: CagraError::from(e), calls: self.teardown() }),
        }
    }

    /// Address of the record.
    pub fn handle(&self) -> (r: usize)
        ensures
            r == self.handle,
    {
        self.handle
    }

    /// The calls at the end of the parameters. First the record gets back the
    /// graph-build pointer that the library put there, under the algorithm that
    /// goes with it, and is destroyed; then what it pointed at is.
    pub open spec fn releases(self) -> Seq<Call<'static>> {
        seq![
            Call::CagraIndexParamsRestore {
                params: self.handle,
                graph_build_params: self.default_graph_build_params,
                build_algo: cuvsCagraGraphBuildAlgo::IVF_PQ,
            },
            Call::ParamsDestroy { kind: ParamsKind::CagraIndex, params: self.handle },
        ] + owner_releases(self.graph_build_owner) + compression_releases(self.compression)
    }

    pub fn teardown(self) -> (r: Vec<Call<'static>>)
        ensures
            r@ == self.releases(),
    {
        let mut calls: Vec<Call<'static>> = Vec::new();
        calls.push(
            Call::CagraIndexParamsRestore {
                params: self.handle,
                graph_build_params: self.default_graph_build_params,
                build_algo: cuvsCagraGraphBuildAlgo::IVF_PQ,
            },
        );
        calls.push(Call::ParamsDestroy { kind: ParamsKind::CagraIndex, params: self.handle });
        match self.graph_build_owner {
            Some(owner) => {
                let mut more = owner.teardown();
                calls.append(&mut more);
            },
            None => {},
        }
        match self.compression {
            Some(compression) => {
                calls.push(compression.teardown());
            },
            None => {},
        }
        assert(calls@ =~= self.releases());
        calls
    }
}

/// A setting that is not given leaves its field as the library made it, and the
/// settings reach neither the algorithm nor its parameters.
pub proof fn unset_index_params_keep_defaults<S>(options: IndexParamsBuilder<S>, defaults: cuvsCagraIndexParams)
    ensures
        options.metric is None ==> options.overridden(defaults).metric == defaults.metric,
        options.intermediate_graph_degree is None ==> options.overridden(defaults).intermediate_graph_degree
            == defaults.intermediate_graph_degree,
        options.graph_degree is None ==> options.overridden(defaults).graph_degree == defaults.graph_degree,
        options.compression is None ==> options.overridden(defaults).compression == defaults.compression,
        options.overridden(defaults).build_algo == defaults.build_algo,
        options.overridden(defaults).graph_build_params == defaults.graph_build_params,
        options.overridden(defaults).nn_descent_niter == defaults.nn_descent_niter,
{
}

/// A strategy keeps the parameters consistent, and leaves the metric, the
/// degrees and the compression alone.
pub proof fn strategy_keeps_parameters_consistent(
    params: IndexParams,
    strategy: Option<RequestedGraphBuild>,
    ace: Created<cuvsAceParams>,
)
    requires
        params.consistent(),
    ensures
        params.with_strategy(strategy, ace).consistent(),
        params.with_strategy(strategy, ace).handle == params.handle,
        params.with_strategy(strategy, ace).default_graph_build_params == params.default_graph_build_params,
        params.with_strategy(strategy, ace).compression == params.compression,
        params.with_strategy(strategy, ace).record.metric == params.record.metric,
        params.with_strategy(strategy, ace).record.graph_degree == params.record.graph_degree,
        params.with_strategy(strategy, ace).record.intermediate_graph_degree
            == params.record.intermediate_graph_degree,
{
}

/// The later of two strategies wins, as if the earlier had not been given; only
/// an iteration count set for NN-Descent stays in the record.
pub proof fn later_strategy_wins(
    params: IndexParams,
    earlier: RequestedGraphBuild,
    later: RequestedGraphBuild,
    ace: Created<cuvsAceParams>,
)
    ensures
        ({
            let both = params.with_strategy(Some(earlier), ace).with_strategy(Some(later), ace);
            let only = params.with_strategy(Some(later), ace);
            &&& both.record.build_algo == only.record.build_algo
            &&& both.record.graph_build_params == only.record.graph_build_params
            &&& both.graph_build_owner == only.graph_build_owner
        }),
{
}

/// A strategy loses no graph-build parameters: those that it replaces are given
/// back at once, those that it brings or has made for it at the end.
pub proof fn replaced_parameters_are_given_back(
    params: IndexParams,
    strategy: RequestedGraphBuild,
    ace: Created<cuvsAceParams>,
)
    ensures
        params.replaced(Some(strategy)) == owner_releases(params.graph_build_owner),
        owner_releases(params.with_strategy(Some(strategy), ace).graph_build_owner) == (if strategy is AceDefault {
            crate::release::made(ParamsKind::Ace, Ok::<Created<cuvsAceParams>, LibraryError>(ace))
        } else {
            strategy.releases()
        }),
{
}

/// Custom IVF-PQ graph-build parameters move into the index parameters as they
/// are and stay in their place: the address that was theirs before is theirs
/// after, it is what the record points at, and it is not null.
pub proof fn graph_build_params_keep_their_place<S>(
    options: IndexParamsBuilder<S>,
    created: Created<cuvsCagraIndexParams>,
    given: IvfPqGraphBuildParams,
    ace: Created<cuvsAceParams>,
)
    requires
        given.placed(),
        options.graph_build == Some(RequestedGraphBuild::IvfPq(given)),
    ensures
        ({
            let params = (IndexParams {
                record: options.overridden(created.record),
                compression: options.compression,
                ..IndexParams::fresh(created)
            }).with_strategy(options.graph_build, ace);
            &&& params.graph_build_owner == Some(GraphBuildOwner::IvfPq(given))
            &&& params.graph_build_owner->0.address() == given.address
            &&& params.record.graph_build_params == given.address
            &&& params.record.graph_build_params != 0
        }),
{
}

/// Consistent parameters that own IVF-PQ graph-build parameters point at them,
/// at an address that is not null, and name the algorithm that reads them.
pub proof fn owned_graph_build_params_are_pointed_at(params: IndexParams, ivf_pq: IvfPqGraphBuildParams)
    requires
        params.consistent(),
        params.graph_build_owner == Some(GraphBuildOwner::IvfPq(ivf_pq)),
        ivf_pq.placed(),
    ensures
        params.record.graph_build_params == ivf_pq.address,
        params.record.graph_build_params != 0,
        params.record.build_algo == GraphBuildAlgo::IvfPq.code(),
{
}

/// Whatever strategy was given, the destructor of the record gets the
/// graph-build pointer that the library allocated, under the algorithm that
/// owns it: nothing that belongs to the caller is freed by the library, and
/// what the library allocated is not lost.
pub proof fn destructor_gets_its_own_pointer(
    created: Created<cuvsCagraIndexParams>,
    strategy: Option<RequestedGraphBuild>,
    ace: Created<cuvsAceParams>,
)
    ensures
        ({
            let params = IndexParams::fresh(created).with_strategy(strategy, ace);
            params.releases().take(2) == seq![
                Call::CagraIndexParamsRestore {
                    params: created.handle,
                    graph_build_params: created.record.graph_build_params,
                    build_algo: cuvsCagraGraphBuildAlgo::IVF_PQ,
                },
                Call::ParamsDestroy { kind: ParamsKind::CagraIndex, params: created.handle },
            ]
        }),
{
    let params = IndexParams::fresh(created).with_strategy(strategy, ace);
    assert(params.releases().take(2) =~= seq![
        Call::CagraIndexParamsRestore {
            params: created.handle,
            graph_build_params: created.record.graph_build_params,
            build_algo: cuvsCagraGraphBuildAlgo::IVF_PQ,
        },
        Call::ParamsDestroy { kind: ParamsKind::CagraIndex, params: created.handle },
    ]);
}

/// Everything that went into index parameters comes out again at their end,
/// each once: the record, then the graph-build parameters that were given or
/// made for them, then the compression parameters.
pub proof fn index_params_give_back_what_they_got<S>(
    options: IndexParamsBuilder<S>,
    created: Created<cuvsCagraIndexParams>,
    ace: Created<cuvsAceParams>,
)
    ensures
        ({
            let params = (IndexParams {
                record: options.overridden(created.record),
                compression: options.compression,
                ..IndexParams::fresh(created)
            }).with_strategy(options.graph_build, ace);
            params.releases().skip(1) == crate::release::made(
                ParamsKind::CagraIndex,
                Ok::<Created<cuvsCagraIndexParams>, LibraryError>(created),
            ) + (if options.graph_build == Some(RequestedGraphBuild::AceDefault) {
                crate::release::made(ParamsKind::Ace, Ok::<Created<cuvsAceParams>, LibraryError>(ace))
            } else {
                seq![]
            }) + options.releases()
        }),
{
    let params = (IndexParams {
        record: options.overridden(created.record),
        compression: options.compression,
        ..IndexParams::fresh(created)
    }).with_strategy(options.graph_build, ace);
    assert(params.releases().skip(1) =~= crate::release::made(
        ParamsKind::CagraIndex,
        Ok::<Created<cuvsCagraIndexParams>, LibraryError>(created),
    ) + (if options.graph_build == Some(RequestedGraphBuild::AceDefault) {
        crate::release::made(ParamsKind::Ace, Ok::<Created<cuvsAceParams>, LibraryError>(ace))
    } else {
        seq![]
    }) + options.releases());
}

} // verus!

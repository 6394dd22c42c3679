//! Distance metrics for nearest neighbor search and pairwise distance.

use vstd::prelude::*;
use vstd::string::*;

use crate::binary::{Binary32, TWO_32};
use crate::call::Call;
use crate::dlpack::{DLPackError, IntoDlTensor, IntoDlTensorMut};
use crate::error::LibraryError;
use crate::ffi::cuvsDistanceType;
use crate::resources::Resources;

verus! {

/// Distance metric used for building and searching nearest neighbor indices.
#[derive(Debug, Copy, Clone)]
#[non_exhaustive]
pub enum DistanceType {
    /// L2 (squared Euclidean) distance.
    L2Expanded,
    /// L2 distance with square root.
    L2SqrtExpanded,
    /// Cosine distance.
    CosineExpanded,
    /// L1 (Manhattan) distance.
    L1,
    /// L2 distance (unexpanded form).
    L2Unexpanded,
    /// L2 distance with square root (unexpanded form).
    L2SqrtUnexpanded,
    /// Inner product.
    InnerProduct,
    /// Chebyshev (L-infinity) distance.
    Linf,
    /// Canberra distance.
    Canberra,
    /// Generalized Minkowski (Lp) distance with exponent `p`.
    LpUnexpanded(Binary32),
    /// Correlation distance.
    CorrelationExpanded,
    /// Jaccard distance.
    JaccardExpanded,
    /// Hellinger distance.
    HellingerExpanded,
    /// Haversine (great-circle) distance.
    Haversine,
    /// Bray-Curtis distance.
    BrayCurtis,
    /// Jensen-Shannon divergence.
    JensenShannon,
    /// Hamming distance.
    HammingUnexpanded,
    /// Kullback-Leibler divergence.
    KLDivergence,
    /// Russell-Rao distance.
    RusselRaoExpanded,
    /// Dice-Sorensen distance.
    DiceExpanded,
    /// Bitwise Hamming distance.
    BitwiseHamming,
    /// Precomputed distance matrix.
    Precomputed,
}

impl DistanceType {
    /// The argument that the C library takes beside the metric: the exponent of
    /// the Minkowski distance, and two for every other metric.
    pub open spec fn argument(self) -> Binary32 {
        match self {
            DistanceType::LpUnexpanded(p) => p,
            _ => Binary32 { bits: TWO_32 },
        }
    }

    pub fn metric_arg(self) -> (r: Binary32)
        ensures
            r == self.argument(),
    {
        match self {
            DistanceType::LpUnexpanded(p) => p,
            _ => Binary32 { bits: TWO_32 },
        }
    }

    /// The C library's name of the metric.
    pub open spec fn code(self) -> cuvsDistanceType {
        match self {
            DistanceType::L2Expanded => cuvsDistanceType::L2Expanded,
            DistanceType::L2SqrtExpanded => cuvsDistanceType::L2SqrtExpanded,
            DistanceType::CosineExpanded => cuvsDistanceType::CosineExpanded,
            DistanceType::L1 => cuvsDistanceType::L1,
            DistanceType::L2Unexpanded => cuvsDistanceType::L2Unexpanded,
            DistanceType::L2SqrtUnexpanded => cuvsDistanceType::L2SqrtUnexpanded,
            DistanceType::InnerProduct => cuvsDistanceType::InnerProduct,
            DistanceType::Linf => cuvsDistanceType::Linf,
            DistanceType::Canberra => cuvsDistanceType::Canberra,
            DistanceType::LpUnexpanded(_) => cuvsDistanceType::LpUnexpanded,
            DistanceType::CorrelationExpanded => cuvsDistanceType::CorrelationExpanded,
            DistanceType::JaccardExpanded => cuvsDistanceType::JaccardExpanded,
            DistanceType::HellingerExpanded => cuvsDistanceType::HellingerExpanded,
            DistanceType::Haversine => cuvsDistanceType::Haversine,
            DistanceType::BrayCurtis => cuvsDistanceType::BrayCurtis,
            DistanceType::JensenShannon => cuvsDistanceType::JensenShannon,
            DistanceType::HammingUnexpanded => cuvsDistanceType::HammingUnexpanded,
            DistanceType::KLDivergence => cuvsDistanceType::KLDivergence,
            DistanceType::RusselRaoExpanded => cuvsDistanceType::RusselRaoExpanded,
            DistanceType::DiceExpanded => cuvsDistanceType::DiceExpanded,
            DistanceType::BitwiseHamming => cuvsDistanceType::BitwiseHamming,
            DistanceType::Precomputed => cuvsDistanceType::Precomputed,
        }
    }

    /// The metric of a C name; the Minkowski exponent, which the name does not
    /// carry, is two.
    pub open spec fn of_code(code: cuvsDistanceType) -> DistanceType {
        match code {
            cuvsDistanceType::L2Expanded => DistanceType::L2Expanded,
            cuvsDistanceType::L2SqrtExpanded => DistanceType::L2SqrtExpanded,
            cuvsDistanceType::CosineExpanded => DistanceType::CosineExpanded,
            cuvsDistanceType::L1 => DistanceType::L1,
            cuvsDistanceType::L2Unexpanded => DistanceType::L2Unexpanded,
            cuvsDistanceType::L2SqrtUnexpanded => DistanceType::L2SqrtUnexpanded,
            cuvsDistanceType::InnerProduct => DistanceType::InnerProduct,
            cuvsDistanceType::Linf => DistanceType::Linf,
            cuvsDistanceType::Canberra => DistanceType::Canberra,
            cuvsDistanceType::LpUnexpanded => DistanceType::LpUnexpanded(Binary32 { bits: TWO_32 }),
            cuvsDistanceType::CorrelationExpanded => DistanceType::CorrelationExpanded,
            cuvsDistanceType::JaccardExpanded => DistanceType::JaccardExpanded,
            cuvsDistanceType::HellingerExpanded => DistanceType::HellingerExpanded,
            cuvsDistanceType::Haversine => DistanceType::Haversine,
            cuvsDistanceType::BrayCurtis => DistanceType::BrayCurtis,
            cuvsDistanceType::JensenShannon => DistanceType::JensenShannon,
            cuvsDistanceType::HammingUnexpanded => DistanceType::HammingUnexpanded,
            cuvsDistanceType::KLDivergence => DistanceType::KLDivergence,
            cuvsDistanceType::RusselRaoExpanded => DistanceType::RusselRaoExpanded,
            cuvsDistanceType::DiceExpanded => DistanceType::DiceExpanded,
            cuvsDistanceType::BitwiseHamming => DistanceType::BitwiseHamming,
            cuvsDistanceType::Precomputed => DistanceType::Precomputed,
        }
    }

    /// Two metrics are equal where their names are and, for the Minkowski
    /// distance, their exponents: all NaN exponents are equal, and so are the
    /// two zeros.
    pub open spec fn same(self, other: DistanceType) -> bool {
        &&& self.code() == other.code()
        &&& self.argument().ordered_equal(other.argument())
    }
}

impl vstd::std_specs::convert::FromSpecImpl<DistanceType> for cuvsDistanceType {
    open spec fn obeys_from_spec() -> bool {
        true
    }

    open spec fn from_spec(v: DistanceType) -> cuvsDistanceType {
        v.code()
    }
}

impl From<DistanceType> for cuvsDistanceType {
    fn from(v: DistanceType) -> (r: cuvsDistanceType) {
        match v {
            DistanceType::L2Expanded => cuvsDistanceType::L2Expanded,
            DistanceType::L2SqrtExpanded => cuvsDistanceType::L2SqrtExpanded,
            DistanceType::CosineExpanded => cuvsDistanceType::CosineExpanded,
            DistanceType::L1 => cuvsDistanceType::L1,
            DistanceType::L2Unexpanded => cuvsDistanceType::L2Unexpanded,
            DistanceType::L2SqrtUnexpanded => cuvsDistanceType::L2SqrtUnexpanded,
            DistanceType::InnerProduct => cuvsDistanceType::InnerProduct,
            DistanceType::Linf => cuvsDistanceType::Linf,
            DistanceType::Canberra => cuvsDistanceType::Canberra,
            DistanceType::LpUnexpanded(_) => cuvsDistanceType::LpUnexpanded,
            DistanceType::CorrelationExpanded => cuvsDistanceType::CorrelationExpanded,
            DistanceType::JaccardExpanded => cuvsDistanceType::JaccardExpanded,
            DistanceType::HellingerExpanded => cuvsDistanceType::HellingerExpanded,
            DistanceType::Haversine => cuvsDistanceType::Haversine,
            DistanceType::BrayCurtis => cuvsDistanceType::BrayCurtis,
            DistanceType::JensenShannon => cuvsDistanceType::JensenShannon,
            DistanceType::HammingUnexpanded => cuvsDistanceType::HammingUnexpanded,
            DistanceType::KLDivergence => cuvsDistanceType::KLDivergence,
            DistanceType::RusselRaoExpanded => cuvsDistanceType::RusselRaoExpanded,
            DistanceType::DiceExpanded => cuvsDistanceType::DiceExpanded,
            DistanceType::BitwiseHamming => cuvsDistanceType::BitwiseHamming,
            DistanceType::Precomputed => cuvsDistanceType::Precomputed,
        }
    }
}

impl vstd::std_specs::convert::FromSpecImpl<cuvsDistanceType> for DistanceType {
    open spec fn obeys_from_spec() -> bool {
        true
    }

    open spec fn from_spec(v: cuvsDistanceType) -> DistanceType {
        DistanceType::of_code(v)
    }
}

impl From<cuvsDistanceType> for DistanceType {
    fn from(v: cuvsDistanceType) -> (r: DistanceType) {
        match v {
            cuvsDistanceType::L2Expanded => DistanceType::L2Expanded,
            cuvsDistanceType::L2SqrtExpanded => DistanceType::L2SqrtExpanded,
            cuvsDistanceType::CosineExpanded => DistanceType::CosineExpanded,
            cuvsDistanceType::L1 => DistanceType::L1,
            cuvsDistanceType::L2Unexpanded => DistanceType::L2Unexpanded,
            cuvsDistanceType::L2SqrtUnexpanded => DistanceType::L2SqrtUnexpanded,
            cuvsDistanceType::InnerProduct => DistanceType::InnerProduct,
            cuvsDistanceType::Linf => DistanceType::Linf,
            cuvsDistanceType::Canberra => DistanceType::Canberra,
            cuvsDistanceType::LpUnexpanded => DistanceType::LpUnexpanded(Binary32 { bits: TWO_32 }),
            cuvsDistanceType::CorrelationExpanded => DistanceType::CorrelationExpanded,
            cuvsDistanceType::JaccardExpanded => DistanceType::JaccardExpanded,
            cuvsDistanceType::HellingerExpanded => DistanceType::HellingerExpanded,
            cuvsDistanceType::Haversine => DistanceType::Haversine,
            cuvsDistanceType::BrayCurtis => DistanceType::BrayCurtis,
            cuvsDistanceType::JensenShannon => DistanceType::JensenShannon,
            cuvsDistanceType::HammingUnexpanded => DistanceType::HammingUnexpanded,
            cuvsDistanceType::KLDivergence => DistanceType::KLDivergence,
            cuvsDistanceType::RusselRaoExpanded => DistanceType::RusselRaoExpanded,
            cuvsDistanceType::DiceExpanded => DistanceType::DiceExpanded,
            cuvsDistanceType::BitwiseHamming => DistanceType::BitwiseHamming,
            cuvsDistanceType::Precomputed => DistanceType::Precomputed,
        }
    }
}

impl PartialEq for DistanceType {
    fn eq(&self, other: &DistanceType) -> (r: bool) {
        let a: cuvsDistanceType = cuvsDistanceType::from(*self);
        let b: cuvsDistanceType = cuvsDistanceType::from(*other);
        a == b && self.metric_arg().ordered_eq(other.metric_arg())
    }
}

impl vstd::std_specs::cmp::PartialEqSpecImpl for DistanceType {
    open spec fn obeys_eq_spec() -> bool {
        true
    }

    open spec fn eq_spec(&self, other: &DistanceType) -> bool {
        self.same(*other)
    }
}

impl Eq for DistanceType {

}

/// A metric survives the way through its C name, with the exponent of the
/// Minkowski distance reset to two.
pub proof fn metric_round_trip(metric: DistanceType)
    ensures
        DistanceType::of_code(metric.code()) == match metric {
            DistanceType::LpUnexpanded(_) => DistanceType::LpUnexpanded(Binary32 { bits: TWO_32 }),
            other => other,
        },
{
}

/// A C name survives the way through its metric.
pub proof fn code_round_trip(code: cuvsDistanceType)
    ensures
        DistanceType::of_code(code).code() == code,
{
}

/// Equality of metrics is an equivalence, also on exponents that are not
/// numbers.
pub proof fn same_is_equivalence(a: DistanceType, b: DistanceType, c: DistanceType)
    ensures
        a.same(a),
        a.same(b) ==> b.same(a),
        a.same(b) && b.same(c) ==> a.same(c),
{
}

/// Error type for pairwise distance operations.
#[derive(Debug)]
pub enum DistanceError {
    /// The C library reported a failure.
    Library(LibraryError),
    /// Tensor conversion into DLPack metadata failed.
    DLPack(DLPackError),
}

impl DistanceError {
    /// The message of the error.
    pub open spec fn message(self) -> Seq<char> {
        match self {
            DistanceError::Library(e) => e.0@,
            DistanceError::DLPack(e) => e.message(),
        }
    }

    pub fn to_string(&self) -> (r: String)
        ensures
            r@ == self.message(),
    {
        match self {
            DistanceError::Library(e) => e.to_string(),
            DistanceError::DLPack(e) => e.to_string(),
        }
    }
}

impl vstd::std_specs::convert::FromSpecImpl<LibraryError> for DistanceError {
    open spec fn obeys_from_spec() -> bool {
        true
    }

    open spec fn from_spec(e: LibraryError) -> DistanceError {
        DistanceError::Library(e)
    }
}

impl From<LibraryError> for DistanceError {
    fn from(e: LibraryError) -> (r: DistanceError) {
        DistanceError::Library(e)
    }
}

impl vstd::std_specs::convert::FromSpecImpl<DLPackError> for DistanceError {
    open spec fn obeys_from_spec() -> bool {
        true
    }

    open spec fn from_spec(e: DLPackError) -> DistanceError {
        DistanceError::DLPack(e)
    }
}

impl From<DLPackError> for DistanceError {
    fn from(e: DLPackError) -> (r: DistanceError) {
        DistanceError::DLPack(e)
    }
}

/// Asks for the distances between the rows of `x` and the rows of `y`.
///
/// The C library expects `x` as `[n, k]`, `y` as `[m, k]` and `distances` as a
/// pre-allocated `[n, m]` matrix. [`DistanceType::LpUnexpanded`] carries the
/// Minkowski exponent; every other metric goes with the argument two.
pub fn pairwise_distance<'a, X, Y, Dist>(
    res: &Resources,
    x: X,
    y: Y,
    distances: Dist,
    metric: DistanceType,
) -> (r: Result<Call<'a>, DistanceError>) where
    X: IntoDlTensor<'a>,
    Y: IntoDlTensor<'a>,
    Dist: IntoDlTensorMut<'a>,

    ensures
        match r {
            Ok(call) => {
                &&& call is PairwiseDistance
                &&& call->PairwiseDistance_res == res.handle
                &&& x.converts(Ok(call->PairwiseDistance_x))
                &&& y.converts(Ok(call->PairwiseDistance_y))
                &&& distances.converts_mut(Ok(call->PairwiseDistance_distances))
                &&& call->PairwiseDistance_metric == metric.code()
                &&& call->PairwiseDistance_metric_arg == metric.argument()
            },
            Err(DistanceError::DLPack(e)) => {
                ||| x.converts(Err(e))
                ||| crate::dlpack::admitted(x) && y.converts(Err(e))
                ||| crate::dlpack::admitted(x) && crate::dlpack::admitted(y) && distances.converts_mut(Err(e))
            },
            Err(DistanceError::Library(_)) => false,
        },
{
    let x = match x.into_dl_tensor() {
        Ok(view) => view,
        Err(e) => return Err(DistanceError::DLPack(e)),
    };
    let y = match y.into_dl_tensor() {
        Ok(view) => view,
        Err(e) => return Err(DistanceError::DLPack(e)),
    };
    let distances = match distances.into_dl_tensor_mut() {
        Ok(view) => view,
        Err(e) => return Err(DistanceError::DLPack(e)),
    };
    Ok(
        Call::PairwiseDistance {
            res: res.handle(),
            x,
            y,
            distances,
            metric: cuvsDistanceType::from(metric),
            metric_arg: metric.metric_arg(),
        },
    )
}

} // verus!

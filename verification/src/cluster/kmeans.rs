//! k-means clustering.

use vstd::prelude::*;
use vstd::string::*;

use crate::call::Call;
use crate::dlpack::{DLPackError, DLTensorView, IntoDlTensor, IntoDlTensorMut};
use crate::error::LibraryError;
use crate::resources::Resources;
use crate::text::with_text;

pub mod params;

pub use crate::cluster::kmeans::params::{KMeansInitMethod, Params};

verus! {

/// Error type for k-means operations.
#[derive(Debug)]
pub enum KMeansError {
    /// The C library reported a failure.
    Library(LibraryError),
    /// Tensor conversion into DLPack metadata failed.
    DLPack(DLPackError),
    /// A parameter value failed validation.
    Validation(String),
}

impl KMeansError {
    /// The message of the error.
    pub open spec fn message(self) -> Seq<char> {
        match self {
            KMeansError::Library(e) => e.0@,
            KMeansError::DLPack(e) => e.message(),
            KMeansError::Validation(text) => "invalid parameter: "@ + text@,
        }
    }

    pub fn to_string(&self) -> (r: String)
        ensures
            r@ == self.message(),
    {
        match self {
            KMeansError::Library(e) => e.to_string(),
            KMeansError::DLPack(e) => e.to_string(),
            KMeansError::Validation(text) => with_text("invalid parameter: ", text.as_str()),
        }
    }
}

impl vstd::std_specs::convert::FromSpecImpl<LibraryError> for KMeansError {
    open spec fn obeys_from_spec() -> bool {
        true
    }

    open spec fn from_spec(e: LibraryError) -> KMeansError {
        KMeansError::Library(e)
    }
}

impl From<LibraryError> for KMeansError {
    fn from(e: LibraryError) -> (r: KMeansError) {
        KMeansError::Library(e)
    }
}

impl vstd::std_specs::convert::FromSpecImpl<DLPackError> for KMeansError {
    open spec fn obeys_from_spec() -> bool {
        true
    }

    open spec fn from_spec(e: DLPackError) -> KMeansError {
        KMeansError::DLPack(e)
    }
}

impl From<DLPackError> for KMeansError {
    fn from(e: DLPackError) -> (r: KMeansError) {
        KMeansError::DLPack(e)
    }
}

/// An optional tensor converts to an optional view.
pub open spec fn converts_optional<'a, W: IntoDlTensor<'a>>(
    tensor: Option<W>,
    r: Result<Option<DLTensorView<'a>>, DLPackError>,
) -> bool {
    match tensor {
        None => r == Ok::<Option<DLTensorView<'a>>, DLPackError>(None),
        Some(t) => match r {
            Ok(Some(view)) => t.converts(Ok(view)),
            Ok(None) => false,
            Err(e) => t.converts(Err(e)),
        },
    }
}

/// The conversion of an optional tensor may succeed.
pub open spec fn admitted_optional<'a, W: IntoDlTensor<'a>>(tensor: Option<W>) -> bool {
    tensor is None || crate::dlpack::admitted(tensor->0)
}

fn convert_optional<'a, W: IntoDlTensor<'a>>(tensor: Option<W>) -> (r: Result<Option<DLTensorView<'a>>, DLPackError>)
    ensures
        converts_optional(tensor, r),
{
    match tensor {
        None => Ok(None),
        Some(t) => match t.into_dl_tensor() {
            Ok(view) => Ok(Some(view)),
            Err(e) => Err(e),
        },
    }
}

/// Finds clusters of the rows of `x`, weighted where weights are given, and
/// writes their centers. The C library answers with the inertia and the number
/// of iterations.
pub fn fit<'a, X, W, C>(res: &Resources, params: &Params, x: X, sample_weight: Option<W>, centroids: C) -> (r: Result<
    Call<'a>,
    KMeansError,
>) where X: IntoDlTensor<'a>, W: IntoDlTensor<'a>, C: IntoDlTensorMut<'a>
    ensures
        match r {
            Ok(call) => {
                &&& call matches Call::KMeansFit { res: h, params: p, x: xv, sample_weight: w, centroids: c }
                &&& h == res.handle
                &&& p == params.handle
                &&& x.converts(Ok(xv))
                &&& converts_optional(sample_weight, Ok(w))
                &&& centroids.converts_mut(Ok(c))
            },
            Err(KMeansError::DLPack(e)) => {
                ||| x.converts(Err(e))
                ||| crate::dlpack::admitted(x) && converts_optional(sample_weight, Err(e))
                ||| crate::dlpack::admitted(x) && admitted_optional(sample_weight) && centroids.converts_mut(Err(e))
            },
            Err(_) => false,
        },
{
    let x = match x.into_dl_tensor() {
        Ok(view) => view,
        Err(e) => return Err(KMeansError::from(e)),
    };
    let sample_weight = match convert_optional(sample_weight) {
        Ok(view) => view,
        Err(e) => return Err(KMeansError::from(e)),
    };
    let centroids = match centroids.into_dl_tensor_mut() {
        Ok(view) => view,
        Err(e) => return Err(KMeansError::from(e)),
    };
    Ok(Call::KMeansFit { res: res.handle(), params: params.as_ptr(), x, sample_weight, centroids })
}

/// Writes the nearest center of each row of `x`. The C library answers with the
/// inertia.
pub fn predict<'a, X, W, Cent, L>(
    res: &Resources,
    params: &Params,
    x: X,
    sample_weight: Option<W>,
    centroids: Cent,
    labels: L,
    normalize_weight: bool,
) -> (r: Result<Call<'a>, KMeansError>) where
    X: IntoDlTensor<'a>,
    W: IntoDlTensor<'a>,
    Cent: IntoDlTensor<'a>,
    L: IntoDlTensorMut<'a>,

    ensures
        match r {
            Ok(call) => {
                &&& call matches Call::KMeansPredict {
                    res: h,
                    params: p,
                    x: xv,
                    sample_weight: w,
                    centroids: c,
                    labels: l,
                    normalize_weight: n,
                }
                &&& h == res.handle
                &&& p == params.handle
                &&& x.converts(Ok(xv))
                &&& converts_optional(sample_weight, Ok(w))
                &&& centroids.converts(Ok(c))
                &&& labels.converts_mut(Ok(l))
                &&& n == normalize_weight
            },
            Err(KMeansError::DLPack(e)) => {
                ||| x.converts(Err(e))
                ||| crate::dlpack::admitted(x) && converts_optional(sample_weight, Err(e))
                ||| crate::dlpack::admitted(x) && admitted_optional(sample_weight) && centroids.converts(Err(e))
                ||| crate::dlpack::admitted(x) && admitted_optional(sample_weight) && crate::dlpack::admitted(centroids)
                    && labels.converts_mut(Err(e))
            },
            Err(_) => false,
        },
{
    let x = match x.into_dl_tensor() {
        Ok(view) => view,
        Err(e) => return Err(KMeansError::from(e)),
    };
    let sample_weight = match convert_optional(sample_weight) {
        Ok(view) => view,
        Err(e) => return Err(KMeansError::from(e)),
    };
    let centroids = match centroids.into_dl_tensor() {
        Ok(view) => view,
        Err(e) => return Err(KMeansError::from(e)),
    };
    let labels = match labels.into_dl_tensor_mut() {
        Ok(view) => view,
        Err(e) => return Err(KMeansError::from(e)),
    };
    Ok(
        Call::KMeansPredict {
            res: res.handle(),
            params: params.as_ptr(),
            x,
            sample_weight,
            centroids,
            labels,
            normalize_weight,
        },
    )
}

/// Asks for the sum of the squared distances of the rows of `x` to their
/// nearest centers.
pub fn cluster_cost<'a, X, C>(res: &Resources, x: X, centroids: C) -> (r: Result<Call<'a>, KMeansError>) where
    X: IntoDlTensor<'a>,
    C: IntoDlTensor<'a>,

    ensures
        match r {
            Ok(call) => {
                &&& call matches Call::KMeansClusterCost { res: h, x: xv, centroids: c }
                &&& h == res.handle
                &&& x.converts(Ok(xv))
                &&& centroids.converts(Ok(c))
            },
            Err(KMeansError::DLPack(e)) => {
                ||| x.converts(Err(e))
                ||| crate::dlpack::admitted(x) && centroids.converts(Err(e))
            },
            Err(_) => false,
        },
{
    let x = match x.into_dl_tensor() {
        Ok(view) => view,
        Err(e) => return Err(KMeansError::from(e)),
    };
    let centroids = match centroids.into_dl_tensor() {
        Ok(view) => view,
        Err(e) => return Err(KMeansError::from(e)),
    };
    Ok(Call::KMeansClusterCost { res: res.handle(), x, centroids })
}

} // verus!

//! Giving back what an operation had made before it failed.

use vstd::prelude::*;

use crate::call::{Call, ParamsKind};
use crate::error::LibraryError;
use crate::ffi::Created;

verus! {

/// Why an operation failed, and the calls that give back what belonged to it.
#[derive(Debug)]
pub struct Refused<E> {
    pub error: E,
    pub calls: Vec<Call<'static>>,
}

/// The call that gives back a record, where one was made.
pub open spec fn made<R>(kind: ParamsKind, created: Result<Created<R>, LibraryError>) -> Seq<Call<'static>> {
    match created {
        Ok(c) => seq![Call::ParamsDestroy { kind, params: c.handle }],
        Err(_) => seq![],
    }
}

pub fn release_made<R>(kind: ParamsKind, created: &Result<Created<R>, LibraryError>) -> (r: Vec<Call<'static>>)
    ensures
        r@ == made(kind, *created),
{
    let mut calls: Vec<Call<'static>> = Vec::new();
    match created {
        Ok(c) => {
            calls.push(Call::ParamsDestroy { kind, params: c.handle });
        },
        Err(_) => {},
    }
    assert(calls@ =~= made(kind, *created));
    calls
}

} // verus!

//! Optional settings over defaults, and the ranges of some of them.

use vstd::prelude::*;

use crate::binary::{Binary64, ONE_64};

verus! {

/// The given value, or the default where none is given.
pub open spec fn set_or<T>(given: Option<T>, default: T) -> T {
    match given {
        Some(value) => value,
        None => default,
    }
}

pub fn choose_setting<T>(given: Option<T>, default: T) -> (r: T)
    ensures
        r == set_or(given, default),
{
    match given {
        Some(value) => value,
        None => default,
    }
}

/// A number above zero and at most one.
pub open spec fn is_fraction(x: Binary64) -> bool {
    (Binary64 { bits: 0 }).less(x) && x.at_most(Binary64 { bits: ONE_64 })
}

pub fn fraction(x: Binary64) -> (r: bool)
    ensures
        r == is_fraction(x),
{
    let zero = Binary64 { bits: 0 };
    let one = Binary64 { bits: ONE_64 };
    zero.lt(x) && x.le(one)
}

/// A number from zero to one.
pub open spec fn is_share(x: Binary64) -> bool {
    (Binary64 { bits: 0 }).at_most(x) && x.at_most(Binary64 { bits: ONE_64 })
}

pub fn share(x: Binary64) -> (r: bool)
    ensures
        r == is_share(x),
{
    let zero = Binary64 { bits: 0 };
    let one = Binary64 { bits: ONE_64 };
    zero.le(x) && x.le(one)
}

} // verus!

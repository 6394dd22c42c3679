//! Numbers by their bits, and numbers as text.

use vstd::arithmetic::power2::{lemma2_to64, lemma_pow2_unfold, pow2};
use vstd::prelude::*;

use crate::binary::{steps, Binary32, Binary64};
use crate::text::{decimal, signed_decimal};

verus! {

/// The lowest exponents step by one: up to twice the first normal number a
/// pattern denotes itself.
proof fn lemma_small_patterns(m: nat, unit: nat)
    requires
        unit > 0,
        m < 2 * unit,
    ensures
        steps(m, unit) == m,
{
    lemma2_to64();
    vstd::arithmetic::div_mod::lemma_fundamental_div_mod(m as int, unit as int);
    if m < unit {
        vstd::arithmetic::div_mod::lemma_small_mod(m, unit);
        vstd::arithmetic::div_mod::lemma_basic_div(m as int, unit as int);
    } else {
        assert(m / unit == 1) by (nonlinear_arith)
            requires
                unit <= m < 2 * unit,
                unit > 0,
        ;
        assert(m % unit == m - unit);
        assert((unit + (m - unit)) * 1 == m);
    }
}

/// One more in the exponent of a normal number doubles it.
proof fn lemma_next_exponent(m: nat, unit: nat)
    requires
        unit > 0,
        m >= unit,
    ensures
        steps(m + unit, unit) == 2 * steps(m, unit),
{
    vstd::arithmetic::div_mod::lemma_fundamental_div_mod(m as int, unit as int);
    vstd::arithmetic::div_mod::lemma_fundamental_div_mod((m + unit) as int, unit as int);
    let e = m / unit;
    let f = m % unit;
    assert(e >= 1) by (nonlinear_arith)
        requires
            e == m / unit,
            m >= unit,
            unit > 0,
    ;
    assert((m + unit) / unit == e + 1 && (m + unit) % unit == f) by {
        assert((m + unit) as int == (e + 1) * unit + f) by (nonlinear_arith)
            requires
                m == unit * e + f,
        ;
        vstd::arithmetic::div_mod::lemma_fundamental_div_mod_converse(
            (m + unit) as int,
            unit as int,
            (e + 1) as int,
            f as int,
        );
    }
    lemma_pow2_unfold(e);
    let p = pow2((e - 1) as nat);
    assert((unit + f) * (2 * p) == 2 * ((unit + f) * p)) by (nonlinear_arith);
}

/// What a binary32 pattern denotes. The least patterns count up by one; one more
/// in the exponent doubles; the sign bit negates; the patterns above that of
/// infinity, with either sign, denote no number.
pub proof fn binary32_patterns_denote_numbers(bits: u32)
    ensures
        bits < 2 * 0x0080_0000 ==> (Binary32 { bits }).value() == bits,
        0x0080_0000 <= bits < 0x7F80_0000 ==> (Binary32 { bits: (bits + 0x0080_0000) as u32 }).value() == 2 * (Binary32 { bits }).value(),
        bits < 0x8000_0000 ==> (Binary32 { bits: (bits + 0x8000_0000) as u32 }).value() == -(Binary32 { bits }).value(),
        bits < 0x8000_0000 ==> ((Binary32 { bits }).nan() <==> bits > 0x7F80_0000),
        bits < 0x8000_0000 ==> ((Binary32 { bits: (bits + 0x8000_0000) as u32 }).nan() <==> bits > 0x7F80_0000),
        bits < 0x8000_0000 ==> ((Binary32 { bits }).finite() <==> bits < 0x7F80_0000),
        bits < 0x8000_0000 ==> ((Binary32 { bits: (bits + 0x8000_0000) as u32 }).finite() <==> bits < 0x7F80_0000),
{
    if bits < 2 * 0x0080_0000 {
        lemma_small_patterns(bits as nat, 0x0080_0000);
    }
    if 0x0080_0000 <= bits < 0x7F80_0000 {
        lemma_next_exponent(bits as nat, 0x0080_0000);
    }
}

/// Binary32 patterns are compared as the numbers that they denote; a pattern
/// that denotes none is neither less than nor at most any other.
pub proof fn binary32_patterns_compare_as_numbers(a: Binary32, b: Binary32)
    ensures
        forall|r: bool| #[trigger]
            call_ensures(Binary32::lt, (a, b), r) ==> r == (!a.nan() && !b.nan() && a.value() < b.value()),
        forall|r: bool| #[trigger]
            call_ensures(Binary32::le, (a, b), r) ==> r == (!a.nan() && !b.nan() && a.value() <= b.value()),
        forall|r: u32| #[trigger] call_ensures(Binary32::to_bits, (a,), r) ==> r == a.bits,
        forall|r: Binary32| #[trigger] call_ensures(Binary32::from_bits, (a.bits,), r) ==> r == a,
{
}

/// What a binary64 pattern denotes. The least patterns count up by one; one more
/// in the exponent doubles; the sign bit negates; the patterns above that of
/// infinity, with either sign, denote no number.
pub proof fn binary64_patterns_denote_numbers(bits: u64)
    ensures
        bits < 2 * 0x0010_0000_0000_0000 ==> (Binary64 { bits }).value() == bits,
        0x0010_0000_0000_0000 <= bits < 0x7FF0_0000_0000_0000 ==> (Binary64 { bits: (bits + 0x0010_0000_0000_0000) as u64 }).value() == 2 * (Binary64 { bits }).value(),
        bits < 0x8000_0000_0000_0000 ==> (Binary64 { bits: (bits + 0x8000_0000_0000_0000) as u64 }).value() == -(Binary64 { bits }).value(),
        bits < 0x8000_0000_0000_0000 ==> ((Binary64 { bits }).nan() <==> bits > 0x7FF0_0000_0000_0000),
        bits < 0x8000_0000_0000_0000 ==> ((Binary64 { bits: (bits + 0x8000_0000_0000_0000) as u64 }).nan() <==> bits > 0x7FF0_0000_0000_0000),
{
    if bits < 2 * 0x0010_0000_0000_0000 {
        lemma_small_patterns(bits as nat, 0x0010_0000_0000_0000);
    }
    if 0x0010_0000_0000_0000 <= bits < 0x7FF0_0000_0000_0000 {
        lemma_next_exponent(bits as nat, 0x0010_0000_0000_0000);
    }
}

/// Binary64 patterns are compared as the numbers that they denote; a pattern
/// that denotes none is neither less than nor at most any other.
pub proof fn binary64_patterns_compare_as_numbers(a: Binary64, b: Binary64)
    ensures
        forall|r: bool| #[trigger]
            call_ensures(Binary64::lt, (a, b), r) ==> r == (!a.nan() && !b.nan() && a.value() < b.value()),
        forall|r: bool| #[trigger]
            call_ensures(Binary64::le, (a, b), r) ==> r == (!a.nan() && !b.nan() && a.value() <= b.value()),
        forall|r: u64| #[trigger] call_ensures(Binary64::to_bits, (a,), r) ==> r == a.bits,
        forall|r: Binary64| #[trigger] call_ensures(Binary64::from_bits, (a.bits,), r) ==> r == a,
{
}

/// The number that a row of decimal digits is read as.
pub open spec fn read(digits: Seq<char>) -> int
    decreases digits.len(),
{
    if digits.len() == 0 {
        0
    } else {
        10 * read(digits.drop_last()) + (digits.last() as int - '0' as int)
    }
}

/// The decimal digits of a number are digits, begin with zero only where the
/// number is zero, and are read as the number.
pub proof fn decimals_are_read_back(n: nat)
    ensures
        decimal(n).len() > 0,
        forall|i: int| 0 <= i < decimal(n).len() ==> '0' <= #[trigger] decimal(n)[i] <= '9',
        n > 0 ==> decimal(n)[0] != '0',
        n == 0 ==> decimal(n) == seq!['0'],
        read(decimal(n)) == n,
    decreases n,
{
    reveal_with_fuel(read, 2);
    let d = seq!['0', '1', '2', '3', '4', '5', '6', '7', '8', '9'];
    if n < 10 {
        assert(decimal(n).drop_last() =~= Seq::empty());
        assert(decimal(n).last() == d[n as int]);
        assert(decimal(n)[0] == d[n as int]);
        assert(n == 0 ==> decimal(n) =~= seq!['0']);
    } else {
        decimals_are_read_back(n / 10);
        assert(decimal(n).drop_last() =~= decimal(n / 10));
        assert(decimal(n).last() == d[(n % 10) as int]);
        assert(decimal(n)[0] == decimal(n / 10)[0]);
        assert forall|i: int| 0 <= i < decimal(n).len() implies '0' <= #[trigger] decimal(n)[i] <= '9' by {
            if i < decimal(n / 10).len() {
                assert(decimal(n)[i] == decimal(n / 10)[i]);
            }
        }
    }
}

/// The digits of a negative number are those of its opposite behind a minus
/// sign; a number that is not negative has no sign.
pub proof fn signed_decimals_are_read_back(n: int)
    ensures
        n >= 0 ==> read(signed_decimal(n)) == n && signed_decimal(n)[0] != '-',
        n < 0 ==> signed_decimal(n)[0] == '-' && -read(signed_decimal(n).drop_first()) == n,
{
    if n < 0 {
        decimals_are_read_back((-n) as nat);
        assert(signed_decimal(n).drop_first() =~= decimal((-n) as nat));
    } else {
        decimals_are_read_back(n as nat);
        assert('0' <= decimal(n as nat)[0]);
    }
}

/// Different numbers have different digits.
pub proof fn decimals_tell_numbers_apart(m: nat, n: nat)
    requires
        decimal(m) == decimal(n),
    ensures
        m == n,
{
    decimals_are_read_back(m);
    decimals_are_read_back(n);
}

/// A message that ends in a number or in a text is its head and that.
pub proof fn messages_end_in_what_they_were_given(head: &str, tail: &str, n: u64)
    ensures
        forall|r: String| #[trigger] call_ensures(crate::text::with_decimal, (head, n), r) ==> r@ == head@ + decimal(n as nat),
        forall|r: String| #[trigger] call_ensures(crate::text::with_text, (head, tail), r) ==> r@ == head@ + tail@,
{
}

} // verus!

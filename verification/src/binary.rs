//! IEEE 754 binary interchange values, held by their bit patterns.
//!
//! A floating-point setting is carried as the bit pattern that the C library
//! receives. The order of two settings is the order of the numbers that the
//! patterns denote, so that a range check on a pattern is a range check on the
//! number.

use vstd::arithmetic::mul::{lemma_mul_inequality, lemma_mul_strict_inequality};
use vstd::arithmetic::power2::{lemma2_to64, lemma_pow2_adds, lemma_pow2_pos, lemma_pow2_strictly_increases, lemma_pow2_unfold, pow2};
use vstd::arithmetic::div_mod::lemma_fundamental_div_mod;
use vstd::prelude::*;

verus! {

/// Number of fraction patterns of a binary32 value.
pub const UNIT_32: u32 = 0x0080_0000;

/// Number of fraction patterns of a binary64 value.
pub const UNIT_64: u64 = 0x0010_0000_0000_0000;

/// Sign bit of a binary32 value.
pub const SIGN_32: u32 = 0x8000_0000;

/// Sign bit of a binary64 value.
pub const SIGN_64: u64 = 0x8000_0000_0000_0000;

/// Pattern of positive infinity in binary32.
pub const INFINITY_32: u32 = 0x7F80_0000;

/// Pattern of positive infinity in binary64.
pub const INFINITY_64: u64 = 0x7FF0_0000_0000_0000;

/// Pattern of one in binary32.
pub const ONE_32: u32 = 0x3F80_0000;

/// Pattern of two in binary32.
pub const TWO_32: u32 = 0x4000_0000;

/// Pattern of the binary32 value nearest to one tenth.
pub const TENTH_32: u32 = 0x3DCC_CCCD;

/// Pattern of the binary32 value nearest to nine tenths.
pub const NINE_TENTHS_32: u32 = 0x3F66_6666;

/// Pattern of one in binary64.
pub const ONE_64: u64 = 0x3FF0_0000_0000_0000;

/// The number that a sign-free pattern denotes, counted in least subnormals.
///
/// `unit` is the number of fraction patterns. A zero exponent field holds the
/// fraction itself; any other adds the hidden bit and doubles with each step
/// of the exponent. The pattern of infinity falls above every finite one.
pub open spec fn steps(magnitude: nat, unit: nat) -> nat
    recommends
        unit > 0,
{
    let exponent = magnitude / unit;
    let fraction = magnitude % unit;
    if exponent == 0 {
        fraction
    } else {
        (unit + fraction) * pow2((exponent - 1) as nat)
    }
}

/// A larger sign-free pattern denotes a larger number.
pub proof fn lemma_steps_increase(a: nat, b: nat, unit: nat)
    requires
        unit > 0,
        a < b,
    ensures
        steps(a, unit) < steps(b, unit),
{
    let ea = a / unit;
    let eb = b / unit;
    let fa = a % unit;
    let fb = b % unit;
    lemma_fundamental_div_mod(a as int, unit as int);
    lemma_fundamental_div_mod(b as int, unit as int);
    assert(ea <= eb) by (nonlinear_arith)
        requires
            a < b,
            unit > 0,
            ea == a / unit,
            eb == b / unit,
    ;
    if ea == eb {
        assert(fa < fb);
        if ea != 0 {
            lemma_pow2_pos((ea - 1) as nat);
            lemma_mul_strict_inequality((unit + fa) as int, (unit + fb) as int, pow2((ea - 1) as nat) as int);
        }
    } else {
        assert(steps(a, unit) < unit * pow2(ea)) by {
            if ea == 0 {
                lemma2_to64();
                assert(unit * 1 == unit);
            } else {
                let p = pow2((ea - 1) as nat);
                lemma_pow2_pos((ea - 1) as nat);
                lemma_pow2_unfold(ea);
                lemma_mul_strict_inequality((unit + fa) as int, (2 * unit) as int, p as int);
                assert((2 * unit) * p == unit * (2 * p)) by (nonlinear_arith);
            }
        }
        assert(unit * pow2(ea) <= unit * pow2((eb - 1) as nat)) by {
            if ea < eb - 1 {
                lemma_pow2_strictly_increases(ea, (eb - 1) as nat);
            }
            lemma_mul_inequality(pow2(ea) as int, pow2((eb - 1) as nat) as int, unit as int);
            assert(unit * pow2(ea) == pow2(ea) * unit) by (nonlinear_arith);
            assert(unit * pow2((eb - 1) as nat) == pow2((eb - 1) as nat) * unit) by (nonlinear_arith);
        }
        lemma_mul_inequality(unit as int, (unit + fb) as int, pow2((eb - 1) as nat) as int);
    }
}

/// A binary32 value by its bit pattern.
#[derive(Debug, Clone, Copy)]
pub struct Binary32 {
    pub bits: u32,
}

/// A binary64 value by its bit pattern.
#[derive(Debug, Clone, Copy)]
pub struct Binary64 {
    pub bits: u64,
}

impl Binary32 {
    /// The pattern without its sign.
    pub open spec fn magnitude(self) -> nat {
        if self.bits >= SIGN_32 {
            (self.bits - SIGN_32) as nat
        } else {
            self.bits as nat
        }
    }

    /// The number denoted, counted in least subnormals, with its sign.
    pub open spec fn value(self) -> int {
        let steps = steps(self.magnitude(), UNIT_32 as nat);
        if self.bits >= SIGN_32 {
            -(steps as int)
        } else {
            steps as int
        }
    }

    /// The pattern denotes no number.
    pub open spec fn nan(self) -> bool {
        self.magnitude() > INFINITY_32
    }

    /// The pattern denotes a number other than the two infinities.
    pub open spec fn finite(self) -> bool {
        self.magnitude() < INFINITY_32
    }

    /// The order of numbers: false as soon as one side is not a number.
    pub open spec fn less(self, other: Self) -> bool {
        !self.nan() && !other.nan() && self.value() < other.value()
    }

    /// `less` or equal, under the same proviso.
    pub open spec fn at_most(self, other: Self) -> bool {
        !self.nan() && !other.nan() && self.value() <= other.value()
    }

    /// Equality under which every non-number is equal to every other one, and
    /// the two zeros are one.
    pub open spec fn ordered_equal(self, other: Self) -> bool {
        if self.nan() {
            other.nan()
        } else {
            !other.nan() && self.value() == other.value()
        }
    }

    pub fn from_bits(bits: u32) -> (r: Self)
        ensures
            r.bits == bits,
    {
        Binary32 { bits }
    }

    pub fn to_bits(self) -> (r: u32)
        ensures
            r == self.bits,
    {
        self.bits
    }

    /// A signed integer that orders as the number does.
    fn key(self) -> (r: i64)
        ensures
            r == if self.bits >= SIGN_32 { -(self.magnitude() as int) } else { self.magnitude() as int },
    {
        if self.bits >= SIGN_32 {
            -((self.bits - SIGN_32) as i64)
        } else {
            self.bits as i64
        }
    }

    pub fn is_nan(self) -> (r: bool)
        ensures
            r == self.nan(),
    {
        let magnitude: u32 = if self.bits >= SIGN_32 { self.bits - SIGN_32 } else { self.bits };
        magnitude > INFINITY_32
    }

    pub fn is_finite(self) -> (r: bool)
        ensures
            r == self.finite(),
    {
        let magnitude: u32 = if self.bits >= SIGN_32 { self.bits - SIGN_32 } else { self.bits };
        magnitude < INFINITY_32
    }

    pub fn lt(self, other: Self) -> (r: bool)
        ensures
            r == self.less(other),
    {
        proof {
            lemma_key_order(
                self.bits >= SIGN_32,
                self.magnitude(),
                other.bits >= SIGN_32,
                other.magnitude(),
                UNIT_32 as nat,
            );
        }
        !self.is_nan() && !other.is_nan() && self.key() < other.key()
    }

    pub fn le(self, other: Self) -> (r: bool)
        ensures
            r == self.at_most(other),
    {
        proof {
            lemma_key_order(
                self.bits >= SIGN_32,
                self.magnitude(),
                other.bits >= SIGN_32,
                other.magnitude(),
                UNIT_32 as nat,
            );
        }
        !self.is_nan() && !other.is_nan() && self.key() <= other.key()
    }

    pub fn ordered_eq(self, other: Self) -> (r: bool)
        ensures
            r == self.ordered_equal(other),
    {
        proof {
            lemma_key_order(
                self.bits >= SIGN_32,
                self.magnitude(),
                other.bits >= SIGN_32,
                other.magnitude(),
                UNIT_32 as nat,
            );
        }
        if self.is_nan() {
            other.is_nan()
        } else {
            !other.is_nan() && self.key() == other.key()
        }
    }
}

impl Binary64 {
    /// The pattern without its sign.
    pub open spec fn magnitude(self) -> nat {
        if self.bits >= SIGN_64 {
            (self.bits - SIGN_64) as nat
        } else {
            self.bits as nat
        }
    }

    /// The number denoted, counted in least subnormals, with its sign.
    pub open spec fn value(self) -> int {
        let steps = steps(self.magnitude(), UNIT_64 as nat);
        if self.bits >= SIGN_64 {
            -(steps as int)
        } else {
            steps as int
        }
    }

    /// The pattern denotes no number.
    pub open spec fn nan(self) -> bool {
        self.magnitude() > INFINITY_64
    }

    /// The order of numbers: false as soon as one side is not a number.
    pub open spec fn less(self, other: Self) -> bool {
        !self.nan() && !other.nan() && self.value() < other.value()
    }

    /// `less` or equal, under the same proviso.
    pub open spec fn at_most(self, other: Self) -> bool {
        !self.nan() && !other.nan() && self.value() <= other.value()
    }

    pub fn from_bits(bits: u64) -> (r: Self)
        ensures
            r.bits == bits,
    {
        Binary64 { bits }
    }

    pub fn to_bits(self) -> (r: u64)
        ensures
            r == self.bits,
    {
        self.bits
    }

    /// A signed integer that orders as the number does.
    fn key(self) -> (r: i128)
        ensures
            r == if self.bits >= SIGN_64 { -(self.magnitude() as int) } else { self.magnitude() as int },
    {
        if self.bits >= SIGN_64 {
            -((self.bits - SIGN_64) as i128)
        } else {
            self.bits as i128
        }
    }

    pub fn is_nan(self) -> (r: bool)
        ensures
            r == self.nan(),
    {
        let magnitude: u64 = if self.bits >= SIGN_64 { self.bits - SIGN_64 } else { self.bits };
        magnitude > INFINITY_64
    }

    pub fn lt(self, other: Self) -> (r: bool)
        ensures
            r == self.less(other),
    {
        proof {
            lemma_key_order(
                self.bits >= SIGN_64,
                self.magnitude(),
                other.bits >= SIGN_64,
                other.magnitude(),
                UNIT_64 as nat,
            );
        }
        !self.is_nan() && !other.is_nan() && self.key() < other.key()
    }

    pub fn le(self, other: Self) -> (r: bool)
        ensures
            r == self.at_most(other),
    {
        proof {
            lemma_key_order(
                self.bits >= SIGN_64,
                self.magnitude(),
                other.bits >= SIGN_64,
                other.magnitude(),
                UNIT_64 as nat,
            );
        }
        !self.is_nan() && !other.is_nan() && self.key() <= other.key()
    }
}

/// Zero denotes no steps, and any other magnitude at least one.
proof fn lemma_steps_zero(a: nat, unit: nat)
    requires
        unit > 0,
    ensures
        steps(0, unit) == 0,
        a > 0 ==> steps(a, unit) > 0,
{
    assert(0nat / unit == 0 && 0nat % unit == 0) by (nonlinear_arith)
        requires
            unit > 0,
    ;
    if a > 0 {
        lemma_steps_increase(0, a, unit);
    }
}

/// The signed patterns order as the signed numbers do.
proof fn lemma_key_order(neg_a: bool, a: nat, neg_b: bool, b: nat, unit: nat)
    requires
        unit > 0,
    ensures
        ({
            let ka = if neg_a { -(a as int) } else { a as int };
            let kb = if neg_b { -(b as int) } else { b as int };
            let va = if neg_a { -(steps(a, unit) as int) } else { steps(a, unit) as int };
            let vb = if neg_b { -(steps(b, unit) as int) } else { steps(b, unit) as int };
            (ka < kb <==> va < vb) && (ka == kb <==> va == vb)
        }),
{
    lemma_steps_zero(a, unit);
    lemma_steps_zero(b, unit);
    if a < b {
        lemma_steps_increase(a, b, unit);
    }
    if b < a {
        lemma_steps_increase(b, a, unit);
    }
}

/// `ONE_64` denotes one: it holds as many least subnormals as one does.
pub proof fn one_64_is_one()
    ensures
        (Binary64 { bits: ONE_64 }).value() == pow2(1074),
        !(Binary64 { bits: ONE_64 }).nan(),
{
    lemma2_to64();
    vstd::arithmetic::power2::lemma2_to64_rest();
    lemma_pow2_adds(52, 1022);
    assert(ONE_64 as nat / UNIT_64 as nat == 1023);
    assert(ONE_64 as nat % UNIT_64 as nat == 0);
}

/// `ONE_32` denotes one and `TWO_32` twice as much.
pub proof fn one_32_is_one()
    ensures
        (Binary32 { bits: ONE_32 }).value() == pow2(149),
        (Binary32 { bits: TWO_32 }).value() == 2 * pow2(149),
        !(Binary32 { bits: ONE_32 }).nan(),
        !(Binary32 { bits: TWO_32 }).nan(),
{
    lemma2_to64();
    lemma_pow2_adds(23, 126);
    lemma_pow2_adds(23, 127);
    lemma_pow2_unfold(150);
    assert(ONE_32 as nat / UNIT_32 as nat == 127);
    assert(ONE_32 as nat % UNIT_32 as nat == 0);
    assert(TWO_32 as nat / UNIT_32 as nat == 128);
    assert(TWO_32 as nat % UNIT_32 as nat == 0);
}

/// `TENTH_32` lies within half a unit in the last place of one tenth.
pub proof fn tenth_32_is_nearest()
    ensures
        ({
            let value = (Binary32 { bits: TENTH_32 }).value();
            let last_place = pow2(122) as int;
            -10 * last_place <= 2 * (10 * value - pow2(149)) <= 10 * last_place
        }),
        !(Binary32 { bits: TENTH_32 }).nan(),
{
    lemma2_to64();
    lemma_pow2_adds(27, 122);
    lemma_pow2_pos(122);
    assert(TENTH_32 as nat / UNIT_32 as nat == 123);
    assert(TENTH_32 as nat % UNIT_32 as nat == 0x4CCCCD);
    assert(pow2(149) == 0x800_0000 * pow2(122));
    assert((Binary32 { bits: TENTH_32 }).value() == 0xCC_CCCD * pow2(122));
}

/// `NINE_TENTHS_32` lies within half a unit in the last place of nine tenths.
pub proof fn nine_tenths_32_is_nearest()
    ensures
        ({
            let value = (Binary32 { bits: NINE_TENTHS_32 }).value();
            let last_place = pow2(125) as int;
            -10 * last_place <= 2 * (10 * value - 9 * pow2(149)) <= 10 * last_place
        }),
        !(Binary32 { bits: NINE_TENTHS_32 }).nan(),
{
    lemma2_to64();
    lemma_pow2_adds(24, 125);
    lemma_pow2_pos(125);
    assert(NINE_TENTHS_32 as nat / UNIT_32 as nat == 126);
    assert(NINE_TENTHS_32 as nat % UNIT_32 as nat == 0x666666);
    assert(pow2(149) == 0x100_0000 * pow2(125));
    assert((Binary32 { bits: NINE_TENTHS_32 }).value() == 0xE6_6666 * pow2(125));
}

/// A binary32 setting together with the decimal text that shows it.
#[derive(Debug)]
pub struct Shown32 {
    pub value: Binary32,
    pub text: String,
}

/// A binary64 setting together with the decimal text that shows it.
#[derive(Debug)]
pub struct Shown64 {
    pub value: Binary64,
    pub text: String,
}

} // verus!

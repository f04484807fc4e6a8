//! Host numbers.
//!
//! The host has one kind of number, the IEEE 754 binary64 value. A [`Number`]
//! holds such a value by its 64 bits: one sign bit, eleven exponent bits and
//! fifty-two fraction bits. Everything here is integer arithmetic on that
//! pattern.

use vstd::arithmetic::div_mod::*;
use vstd::arithmetic::mul::*;
use vstd::arithmetic::power2::*;
use vstd::prelude::*;

verus! {

/// The weight of the sign bit, two to the sixty-third.
pub const SIGN_BIT: u64 = 0x8000_0000_0000_0000;

/// The weight of the lowest exponent bit, two to the fifty-second. It is also
/// the leading bit that a normal number's significand has without storing it.
pub const HIDDEN_BIT: u64 = 0x0010_0000_0000_0000;

/// The exponent field of a number whose significand counts ones.
pub const UNIT_EXPONENT: u64 = 1075;

/// The exponent field of the numbers from one up to two.
pub const EXPONENT_BIAS: u64 = 1023;

/// The exponent field of the infinities and of the values that are no number.
pub const EXPONENT_MAX: u64 = 2047;

/// A host number, by the bits of its binary64 form.
#[derive(Clone, Copy, Debug, PartialEq, Eq, Structural)]
pub struct Number {
    pub bits: u64,
}

/// The position of the highest one bit of `m`, zero for zero.
pub open spec fn floor_log2(m: nat) -> nat
    decreases m,
{
    if m <= 1 {
        0
    } else {
        1 + floor_log2(m / 2)
    }
}

impl Number {
    /// Whether the sign bit is set.
    pub open spec fn negative(self) -> bool {
        self.bits >= SIGN_BIT
    }

    /// The exponent field.
    pub open spec fn exponent(self) -> int {
        (self.bits as int / HIDDEN_BIT as int) % 2048
    }

    /// The fraction field.
    pub open spec fn fraction(self) -> int {
        self.bits as int % HIDDEN_BIT as int
    }

    /// The significand of a normal number: the fraction under its hidden bit.
    pub open spec fn significand(self) -> int {
        HIDDEN_BIT as int + self.fraction()
    }

    /// Whether the bits stand for no number at all.
    pub open spec fn is_nan(self) -> bool {
        self.exponent() == EXPONENT_MAX && self.fraction() != 0
    }

    /// The integer that the number is, if it is one. A normal number is its
    /// significand times two to the power of its exponent field less 1075.
    pub open spec fn integral(self) -> Option<int> {
        let e = self.exponent();
        let sign: int = if self.negative() { -1 } else { 1 };
        if e == 0 {
            if self.fraction() == 0 {
                Some(0)
            } else {
                None
            }
        } else if e == EXPONENT_MAX || e < EXPONENT_BIAS {
            None
        } else if e >= UNIT_EXPONENT {
            Some(sign * (self.significand() * pow2((e - UNIT_EXPONENT) as nat)))
        } else if self.significand() % (pow2((UNIT_EXPONENT - e) as nat) as int) == 0 {
            Some(sign * (self.significand() / (pow2((UNIT_EXPONENT - e) as nat) as int)))
        } else {
            None
        }
    }

    /// The number cut down to an unsigned 64-bit integer: rounded towards
    /// zero, held to the range of the type, and zero where it is no number.
    pub open spec fn truncated(self) -> int {
        let e = self.exponent();
        if self.negative() || self.is_nan() || e < EXPONENT_BIAS {
            0
        } else if e >= UNIT_EXPONENT + 12 {
            u64::MAX as int
        } else if e >= UNIT_EXPONENT {
            self.significand() * pow2((e - UNIT_EXPONENT) as nat)
        } else {
            self.significand() / (pow2((UNIT_EXPONENT - e) as nat) as int)
        }
    }

    /// The number that holds the integer `n`, for `n` of at most 53 bits.
    pub open spec fn of_int(n: int) -> Number {
        if n == 0 {
            Number { bits: 0 }
        } else {
            let m: nat = if n < 0 { (-n) as nat } else { n as nat };
            let top = floor_log2(m);
            let sign: int = if n < 0 { SIGN_BIT as int } else { 0 };
            Number {
                bits: (sign + (EXPONENT_BIAS + top) * HIDDEN_BIT + (m * pow2((52 - top) as nat)
                    - HIDDEN_BIT)) as u64,
            }
        }
    }

    /// The number with the given bits.
    pub fn from_bits(bits: u64) -> (r: Number)
        ensures
            r.bits == bits,
    {
        Number { bits }
    }

    /// The bits of the number.
    pub fn to_bits(self) -> (r: u64)
        ensures
            r == self.bits,
    {
        self.bits
    }

    /// The number that holds an unsigned 32-bit integer.
    pub fn from_u32(n: u32) -> (r: Number)
        ensures
            r == Number::of_int(n as int),
    {
        assert(0x1_0000_0000u64 < 0x20_0000_0000_0000u64);
        from_magnitude(false, n as u64)
    }

    /// The number that holds a signed 32-bit integer.
    pub fn from_i32(n: i32) -> (r: Number)
        ensures
            r == Number::of_int(n as int),
    {
        if n < 0 {
            let m: u64 = (-(n as i64)) as u64;
            from_magnitude(true, m)
        } else {
            from_magnitude(false, n as u64)
        }
    }

    /// Whether the bits stand for no number at all.
    pub fn is_not_a_number(self) -> (r: bool)
        ensures
            r == self.is_nan(),
    {
        let e = (self.bits / HIDDEN_BIT) % 2048;
        let f = self.bits % HIDDEN_BIT;
        e == EXPONENT_MAX && f != 0
    }

    /// Cuts the number down to an unsigned 64-bit integer, as a cast does.
    pub fn to_u64(self) -> (r: u64)
        ensures
            r == self.truncated(),
    {
        let e = (self.bits / HIDDEN_BIT) % 2048;
        let f = self.bits % HIDDEN_BIT;
        if self.bits >= SIGN_BIT || (e == EXPONENT_MAX && f != 0) || e < EXPONENT_BIAS {
            0
        } else if e >= UNIT_EXPONENT + 12 {
            u64::MAX
        } else if e >= UNIT_EXPONENT {
            let sig: u64 = HIDDEN_BIT + f;
            let places: u64 = e - UNIT_EXPONENT;
            proof {
                lemma_scaled_fits(sig, places);
            }
            scale_up(sig, places)
        } else {
            scale_down(HIDDEN_BIT + f, UNIT_EXPONENT - e)
        }
    }
}

/// A significand moved up by fewer than twelve places fits in 64 bits.
proof fn lemma_scaled_fits(sig: u64, k: u64)
    requires
        sig < 2 * HIDDEN_BIT,
        k < 12,
    ensures
        sig * pow2(k as nat) <= u64::MAX,
{
    lemma2_to64();
    if k < 11 {
        lemma_pow2_strictly_increases(k as nat, 11);
    }
    assert(pow2(k as nat) <= 2048);
    lemma_mul_inequality(pow2(k as nat) as int, 2048, sig as int);
    lemma_mul_is_commutative(sig as int, pow2(k as nat) as int);
}

/// `v` times two to the `k`.
fn scale_up(v: u64, k: u64) -> (r: u64)
    requires
        v * pow2(k as nat) <= u64::MAX,
    ensures
        r == v * pow2(k as nat),
{
    let mut r: u64 = v;
    let mut i: u64 = 0;
    proof {
        lemma2_to64();
    }
    while i < k
        invariant
            i <= k,
            r == v * pow2(i as nat),
            v * pow2(k as nat) <= u64::MAX,
        decreases k - i,
    {
        proof {
            lemma_pow2_unfold((i + 1) as nat);
            if i + 1 < k {
                lemma_pow2_strictly_increases((i + 1) as nat, k as nat);
            }
            lemma_mul_inequality(pow2((i + 1) as nat) as int, pow2(k as nat) as int, v as int);
            lemma_mul_is_commutative(v as int, pow2((i + 1) as nat) as int);
            lemma_mul_is_commutative(v as int, pow2(k as nat) as int);
            lemma_mul_is_associative(v as int, 2, pow2(i as nat) as int);
            lemma_mul_is_commutative(v as int, 2);
            lemma_mul_is_associative(2, v as int, pow2(i as nat) as int);
        }
        r = r * 2;
        i = i + 1;
    }
    r
}

/// `v` divided by two to the `k`, rounded down.
fn scale_down(v: u64, k: u64) -> (r: u64)
    ensures
        r == v as int / (pow2(k as nat) as int),
{
    let mut r: u64 = v;
    let mut i: u64 = 0;
    proof {
        lemma2_to64();
    }
    while i < k
        invariant
            i <= k,
            r == v as int / (pow2(i as nat) as int),
        decreases k - i,
    {
        proof {
            lemma_pow2_unfold((i + 1) as nat);
            lemma_pow2_pos(i as nat);
            lemma_div_denominator(v as int, pow2(i as nat) as int, 2);
            lemma_mul_is_commutative(pow2(i as nat) as int, 2);
        }
        r = r / 2;
        i = i + 1;
    }
    r
}

/// A number between two neighbouring powers of two has the lower one's
/// exponent as the position of its highest bit.
proof fn lemma_floor_log2_between(m: nat, k: nat)
    requires
        pow2(k) <= m < pow2(k + 1),
    ensures
        floor_log2(m) == k,
    decreases k,
{
    lemma2_to64();
    if k == 0 {
        lemma_pow2_unfold(1);
    } else {
        lemma_pow2_unfold(k);
        lemma_pow2_unfold(k + 1);
        lemma_floor_log2_between(m / 2, (k - 1) as nat);
    }
}

/// The number that holds the integer of the given sign and magnitude.
fn from_magnitude(negative: bool, magnitude: u64) -> (r: Number)
    requires
        magnitude < 2 * HIDDEN_BIT,
    ensures
        r == Number::of_int(if negative { -(magnitude as int) } else { magnitude as int }),
{
    if magnitude == 0 {
        return Number { bits: 0 };
    }
    let mut sig: u64 = magnitude;
    let mut places: u64 = 0;
    proof {
        lemma2_to64();
    }
    while sig < HIDDEN_BIT
        invariant
            0 < magnitude,
            0 < sig < 2 * HIDDEN_BIT,
            places <= 52,
            sig == magnitude * pow2(places as nat),
        decreases 52 - places,
    {
        proof {
            lemma_pow2_unfold((places + 1) as nat);
            lemma_mul_is_associative(magnitude as int, 2, pow2(places as nat) as int);
            lemma_mul_is_commutative(magnitude as int, 2);
            lemma_mul_is_associative(2, magnitude as int, pow2(places as nat) as int);
            if places == 52 {
                lemma2_to64_rest();
                lemma_mul_inequality(1, magnitude as int, pow2(52) as int);
            }
        }
        sig = sig * 2;
        places = places + 1;
    }
    let top: u64 = 52 - places;
    proof {
        lemma_top_bit(magnitude, places);
    }
    let sign: u64 = if negative { SIGN_BIT } else { 0 };
    Number { bits: sign + (EXPONENT_BIAS + top) * HIDDEN_BIT + (sig - HIDDEN_BIT) }
}

/// A magnitude that fills the significand after moving up by `places` has its
/// highest bit at position `52 - places`.
proof fn lemma_top_bit(magnitude: u64, places: u64)
    requires
        places <= 52,
        HIDDEN_BIT <= magnitude * pow2(places as nat) < 2 * HIDDEN_BIT,
    ensures
        floor_log2(magnitude as nat) == 52 - places,
{
    let top = (52 - places) as nat;
    lemma2_to64();
    lemma2_to64_rest();
    lemma_pow2_adds(top, places as nat);
    lemma_pow2_adds(top + 1, places as nat);
    lemma_pow2_unfold(53);
    lemma_pow2_pos(places as nat);
    assert(pow2(top) * pow2(places as nat) == HIDDEN_BIT);
    assert(pow2(top + 1) * pow2(places as nat) == 2 * HIDDEN_BIT);
    if magnitude < pow2(top) {
        lemma_mul_strict_inequality(
            magnitude as int,
            pow2(top) as int,
            pow2(places as nat) as int,
        );
    }
    if magnitude >= pow2(top + 1) {
        lemma_mul_inequality(
            pow2(top + 1) as int,
            magnitude as int,
            pow2(places as nat) as int,
        );
    }
    lemma_floor_log2_between(magnitude as nat, top);
}

/// The number made for an integer of at most 53 bits is that integer.
pub proof fn lemma_of_int_is_integral(n: int)
    requires
        -(2 * HIDDEN_BIT) < n < 2 * HIDDEN_BIT,
    ensures
        Number::of_int(n).integral() == Some(n),
{
    if n != 0 {
        let m: nat = if n < 0 { (-n) as nat } else { n as nat };
        let top = floor_log2(m);
        lemma_floor_log2_bounds(m);
        lemma2_to64();
        lemma2_to64_rest();
        lemma_pow2_unfold(53);
        if top > 52 {
            lemma_pow2_strictly_increases(53, top);
        }
        assert(top <= 52) by {
            if top > 52 {
                if top > 53 {
                    lemma_pow2_strictly_increases(53, top);
                }
                assert(pow2(top) >= pow2(53));
            }
        }
        let places = (52 - top) as nat;
        let sig = m * pow2(places);
        lemma_pow2_adds(top, places);
        lemma_pow2_adds(top + 1, places);
        lemma_pow2_pos(places);
        lemma_mul_inequality(pow2(top) as int, m as int, pow2(places) as int);
        lemma_mul_strict_inequality(m as int, pow2(top + 1) as int, pow2(places) as int);
        assert(HIDDEN_BIT <= sig < 2 * HIDDEN_BIT);
        let x = Number::of_int(n);
        let sign: int = if n < 0 { SIGN_BIT as int } else { 0 };
        let e = EXPONENT_BIAS + top;
        let total = sign + e * HIDDEN_BIT + (sig - HIDDEN_BIT);
        assert(0 <= total <= u64::MAX);
        assert(x.bits == total);
        assert(x.fraction() == sig - HIDDEN_BIT);
        assert(x.exponent() == e);
        assert(x.negative() == (n < 0));
        assert(x.significand() == sig);
        if n < 0 {
            assert((-1) * (m as int) == n);
        } else {
            assert(1 * (m as int) == n);
        }
        if top == 52 {
            assert(pow2(places) == 1);
            assert(sig == m) by (nonlinear_arith)
                requires
                    sig == m * pow2(places),
                    pow2(places) == 1,
            ;
            assert((e - UNIT_EXPONENT) as nat == 0);
            assert(sig * pow2(0) == m) by (nonlinear_arith)
                requires
                    sig == m,
                    pow2(0) == 1,
            ;
        } else {
            assert((UNIT_EXPONENT - e) as nat == places);
            lemma_mod_multiples_basic(m as int, pow2(places) as int);
            lemma_div_by_multiple(m as int, pow2(places) as int);
            assert((sig as int) % (pow2(places) as int) == 0);
            assert((sig as int) / (pow2(places) as int) == m);
        }
    }
}

/// The highest bit of a number that is not zero lies where the powers of two
/// change from at most the number to more than it.
pub proof fn lemma_floor_log2_bounds(m: nat)
    requires
        m > 0,
    ensures
        pow2(floor_log2(m)) <= m < pow2(floor_log2(m) + 1),
    decreases m,
{
    lemma2_to64();
    if m > 1 {
        lemma_floor_log2_bounds(m / 2);
        lemma_pow2_unfold(floor_log2(m));
        lemma_pow2_unfold(floor_log2(m) + 1);
    }
}

/// A number that is an integer in the range of `u64` is cut down to that
/// integer.
pub proof fn lemma_integral_truncates(x: Number, n: int)
    requires
        x.integral() == Some(n),
        0 <= n <= u64::MAX,
    ensures
        x.truncated() == n,
{
    let e = x.exponent();
    let sig = x.significand();
    lemma2_to64();
    lemma2_to64_rest();
    assert(HIDDEN_BIT <= sig < 2 * HIDDEN_BIT);
    if e != 0 {
        assert(EXPONENT_BIAS <= e < EXPONENT_MAX);
        if e >= UNIT_EXPONENT {
            let k = (e - UNIT_EXPONENT) as nat;
            let value = sig * pow2(k);
            lemma_pow2_pos(k);
            lemma_mul_strictly_positive(sig, pow2(k) as int);
            assert(value > 0);
            if x.negative() {
                assert((-1) * value < 0) by (nonlinear_arith)
                    requires
                        value > 0,
                ;
            }
            assert(!x.negative());
            assert(1 * value == value);
            if e >= UNIT_EXPONENT + 12 {
                if k > 12 {
                    lemma_pow2_strictly_increases(12, k);
                }
                assert(value >= HIDDEN_BIT * 4096) by (nonlinear_arith)
                    requires
                        value == sig * pow2(k),
                        sig >= HIDDEN_BIT,
                        pow2(k) >= 4096,
                ;
            }
        } else {
            let k = (UNIT_EXPONENT - e) as nat;
            let value = sig / (pow2(k) as int);
            lemma_pow2_pos(k);
            if k < 52 {
                lemma_pow2_strictly_increases(k, 52);
            }
            lemma_div_non_zero(sig, pow2(k) as int);
            assert(value > 0);
            if x.negative() {
                assert((-1) * value < 0) by (nonlinear_arith)
                    requires
                        value > 0,
                ;
            }
            assert(!x.negative());
            assert(1 * value == value);
        }
    }
}


/// The number made for an integer that is not negative and has at most 53
/// bits is cut down to that integer again.
pub proof fn lemma_of_int_truncates(n: int)
    requires
        0 <= n < 2 * HIDDEN_BIT,
    ensures
        Number::of_int(n).truncated() == n,
{
    lemma_of_int_is_integral(n);
    lemma_integral_truncates(Number::of_int(n), n);
}

} // verus!

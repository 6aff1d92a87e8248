//! A signed 256-bit integer held as plain parts, with its arithmetic supplied
//! by `arrow_buffer`'s `i256`.

use vstd::prelude::*;
use arrow_buffer::i256 as ArrowI256;

verus! {

/// 2^128, the weight of the high part.
pub open spec fn two_pow_128() -> int {
    u128::MAX as int + 1
}

/// 2^255: values lie in `[-2^255, 2^255)`.
pub open spec fn two_pow_255() -> int {
    two_pow_128() * 0x8000_0000_0000_0000_0000_0000_0000_0000
}

pub open spec fn i256_min() -> int {
    -two_pow_255()
}

pub open spec fn i256_max() -> int {
    two_pow_255() - 1
}

pub open spec fn in_i256_range(v: int) -> bool {
    i256_min() <= v <= i256_max()
}

/// Ten to the power `n`.
pub open spec fn pow10(n: nat) -> int
    decreases n,
{
    if n == 0 {
        1
    } else {
        10 * pow10((n - 1) as nat)
    }
}

pub proof fn lemma_pow10_monotone(a: nat, b: nat)
    requires
        a <= b,
    ensures
        pow10(a) <= pow10(b),
    decreases b - a,
{
    if a < b {
        lemma_pow10_monotone(a, (b - 1) as nat);
        lemma_pow10_positive((b - 1) as nat);
    }
}

pub proof fn lemma_pow10_split(a: nat, b: nat)
    ensures
        pow10(a + b) == pow10(a) * pow10(b),
    decreases a,
{
    if a > 0 {
        lemma_pow10_split((a - 1) as nat, b);
        assert(pow10(a + b) == 10 * pow10((a - 1 + b) as nat));
        assert(10 * (pow10((a - 1) as nat) * pow10(b)) == (10 * pow10((a - 1) as nat)) * pow10(b))
            by (nonlinear_arith);
    }
}

pub proof fn lemma_pow10_positive(n: nat)
    ensures
        pow10(n) >= 1,
        n >= 1 ==> pow10(n) >= 10,
    decreases n,
{
    if n > 0 {
        lemma_pow10_positive((n - 1) as nat);
    }
}

/// Truncating division (rounds toward zero), as the machine divides.
pub open spec fn trunc_div(a: int, b: int) -> int
    recommends
        b > 0,
{
    if a >= 0 {
        a / b
    } else {
        -((-a) / b)
    }
}

/// Remainder of truncating division: it takes the sign of `a`.
pub open spec fn trunc_rem(a: int, b: int) -> int
    recommends
        b > 0,
{
    a - b * trunc_div(a, b)
}

/// A signed 256-bit integer: `high * 2^128 + low`.
#[derive(Clone, Copy, Debug, PartialEq, Eq, Structural)]
pub struct I256 {
    pub low: u128,
    pub high: i128,
}

impl I256 {
    pub open spec fn value(self) -> int {
        self.high as int * two_pow_128() + self.low as int
    }

    pub proof fn lemma_range(self)
        ensures
            in_i256_range(self.value()),
    {
        let h = self.high as int;
        let l = self.low as int;
        assert(-0x8000_0000_0000_0000_0000_0000_0000_0000 <= h <= 0x7fff_ffff_ffff_ffff_ffff_ffff_ffff_ffff);
        assert(0 <= l < two_pow_128());
        assert(h * two_pow_128() <= 0x7fff_ffff_ffff_ffff_ffff_ffff_ffff_ffff * two_pow_128())
            by (nonlinear_arith)
            requires
                h <= 0x7fff_ffff_ffff_ffff_ffff_ffff_ffff_ffff,
                two_pow_128() > 0,
        ;
        assert(h * two_pow_128() >= -0x8000_0000_0000_0000_0000_0000_0000_0000 * two_pow_128())
            by (nonlinear_arith)
            requires
                h >= -0x8000_0000_0000_0000_0000_0000_0000_0000,
                two_pow_128() > 0,
        ;
    }

    /// The value of an `i128`.
    pub fn from_i128(v: i128) -> (r: I256)
        ensures
            r.value() == v as int,
    {
        let high: i128 = if v < 0 { -1 } else { 0 };
        let low: u128 = if v < 0 { (v + 1 + 0x7fff_ffff_ffff_ffff_ffff_ffff_ffff_ffff) as u128 + 0x8000_0000_0000_0000_0000_0000_0000_0000 } else { v as u128 };
        let r = I256 { low, high };
        r
    }

    pub fn zero() -> (r: I256)
        ensures
            r.value() == 0,
    {
        I256 { low: 0, high: 0 }
    }

    /// `self <= other` by value.
    pub fn le(&self, other: &I256) -> (r: bool)
        ensures
            r == (self.value() <= other.value()),
    {
        proof {
            lemma_order(*self, *other);
            lemma_order(*other, *self);
        }
        self.high < other.high || (self.high == other.high && self.low <= other.low)
    }
}

proof fn lemma_order(a: I256, b: I256)
    ensures
        a.high < b.high ==> a.value() < b.value(),
        a.high == b.high ==> (a.value() <= b.value() <==> a.low <= b.low),
{
    let p = two_pow_128();
    let (ha, hb, la, lb) = (a.high as int, b.high as int, a.low as int, b.low as int);
    if ha < hb {
        assert(ha * p + p <= hb * p) by (nonlinear_arith)
            requires
                ha < hb,
                p > 0,
        ;
    }
}

pub proof fn lemma_parts_determined(a: I256, b: I256)
    ensures
        a.value() == b.value() ==> a == b,
{
    lemma_order(a, b);
    lemma_order(b, a);
}

/// Relies on `i256::from_parts`, `i256::to_parts` and `i256::checked_mul`:
/// the exact product, or `None` when it leaves the 256-bit range.
#[verifier::external_body]
pub(crate) fn checked_mul(a: I256, b: I256) -> (r: Option<I256>)
    ensures
        r is Some <==> in_i256_range(a.value() * b.value()),
        r matches Some(v) ==> v.value() == a.value() * b.value(),
{
    let x = ArrowI256::from_parts(a.low, a.high);
    let y = ArrowI256::from_parts(b.low, b.high);
    x.checked_mul(y).map(|v| {
        let (low, high) = v.to_parts();
        I256 { low, high }
    })
}

/// Relies on `i256::checked_add`: the exact sum, or `None` on overflow.
#[verifier::external_body]
pub(crate) fn checked_add(a: I256, b: I256) -> (r: Option<I256>)
    ensures
        r is Some <==> in_i256_range(a.value() + b.value()),
        r matches Some(v) ==> v.value() == a.value() + b.value(),
{
    let x = ArrowI256::from_parts(a.low, a.high);
    let y = ArrowI256::from_parts(b.low, b.high);
    x.checked_add(y).map(|v| {
        let (low, high) = v.to_parts();
        I256 { low, high }
    })
}

/// Relies on `i256::checked_sub`: the exact difference, or `None` on overflow.
#[verifier::external_body]
pub(crate) fn checked_sub(a: I256, b: I256) -> (r: Option<I256>)
    ensures
        r is Some <==> in_i256_range(a.value() - b.value()),
        r matches Some(v) ==> v.value() == a.value() - b.value(),
{
    let x = ArrowI256::from_parts(a.low, a.high);
    let y = ArrowI256::from_parts(b.low, b.high);
    x.checked_sub(y).map(|v| {
        let (low, high) = v.to_parts();
        I256 { low, high }
    })
}

/// Relies on `i256::wrapping_div`, which truncates toward zero; a positive
/// divisor rules out both the panic on zero and the one wrapping case.
#[verifier::external_body]
pub(crate) fn div_trunc(a: I256, b: I256) -> (r: I256)
    requires
        b.value() > 0,
    ensures
        r.value() == trunc_div(a.value(), b.value()),
{
    let x = ArrowI256::from_parts(a.low, a.high);
    let (low, high) = x.wrapping_div(ArrowI256::from_parts(b.low, b.high)).to_parts();
    I256 { low, high }
}

/// Relies on `i256::wrapping_rem`: the remainder of truncating division,
/// which takes the sign of the dividend.
#[verifier::external_body]
pub(crate) fn rem_trunc(a: I256, b: I256) -> (r: I256)
    requires
        b.value() > 0,
    ensures
        r.value() == trunc_rem(a.value(), b.value()),
{
    let x = ArrowI256::from_parts(a.low, a.high);
    let (low, high) = x.wrapping_rem(ArrowI256::from_parts(b.low, b.high)).to_parts();
    I256 { low, high }
}

/// Relies on `i256::checked_pow`: `10^exp`, or `None` when it leaves the
/// range. With a base of ten no intermediate square exceeds the result.
#[verifier::external_body]
pub(crate) fn checked_pow(base: I256, exp: u32) -> (r: Option<I256>)
    requires
        base.value() == 10,
    ensures
        r is Some <==> pow10(exp as nat) <= i256_max(),
        r matches Some(v) ==> v.value() == pow10(exp as nat),
{
    let x = ArrowI256::from_parts(base.low, base.high);
    x.checked_pow(exp).map(|v| {
        let (low, high) = v.to_parts();
        I256 { low, high }
    })
}

/// Relies on `i256::to_i128`: `Some` exactly when the value fits an `i128`.
#[verifier::external_body]
pub(crate) fn to_i128(a: I256) -> (r: Option<i128>)
    ensures
        r is Some <==> (i128::MIN <= a.value() <= i128::MAX),
        r matches Some(v) ==> v as int == a.value(),
{
    ArrowI256::from_parts(a.low, a.high).to_i128()
}

/// The value of a string of decimal digits.
pub open spec fn digits_value(s: Seq<char>) -> int
    decreases s.len(),
{
    if s.len() == 0 {
        0
    } else {
        digits_value(s.drop_last()) * 10 + (s.last() as int - '0' as int)
    }
}

pub open spec fn is_digit(c: char) -> bool {
    '0' <= c <= '9'
}

pub open spec fn all_digits(s: Seq<char>) -> bool {
    forall|i: int| 0 <= i < s.len() ==> is_digit(#[trigger] s[i])
}

/// Relies on `i256::from_string`: on a non-empty run of ASCII digits it gives
/// the number they spell, or `None` when that exceeds the 256-bit range.
#[verifier::external_body]
pub(crate) fn parse_digits(s: &str) -> (r: Option<I256>)
    requires
        s@.len() > 0,
        all_digits(s@),
    ensures
        r is Some <==> digits_value(s@) <= i256_max(),
        r matches Some(v) ==> v.value() == digits_value(s@),
{
    ArrowI256::from_string(s).map(|v| {
        let (low, high) = v.to_parts();
        I256 { low, high }
    })
}

} // verus!

//! The capability that the decimal engine needs of a fixed-width integer:
//! its value as a mathematical integer, its range, conversions through the
//! 256-bit intermediate, and the precision-fit predicate.

use vstd::prelude::*;
use arrow_array::types::{Decimal128Type, Decimal256Type, DecimalType};
use arrow_buffer::i256 as ArrowI256;
use crate::i256::{I256, i256_min, i256_max, lemma_pow10_split, pow10, to_i128};

verus! {

/// The two decimal widths.
#[derive(Clone, Copy, Debug, PartialEq, Eq, Structural)]
pub enum DecimalKind {
    Decimal128,
    Decimal256,
}

/// The name of a decimal width.
pub open spec fn kind_text(kind: DecimalKind) -> Seq<char> {
    match kind {
        DecimalKind::Decimal128 => "Decimal128"@,
        DecimalKind::Decimal256 => "Decimal256"@,
    }
}

impl DecimalKind {
    pub fn name(&self) -> (r: &'static str)
        ensures
            r@ == kind_text(*self),
    {
        match self {
            DecimalKind::Decimal128 => "Decimal128",
            DecimalKind::Decimal256 => "Decimal256",
        }
    }
}

/// `v` has at most `precision` decimal digits.
pub open spec fn fits_precision(v: int, precision: nat) -> bool {
    -(pow10(precision) - 1) <= v <= pow10(precision) - 1
}

/// A fixed-width signed integer that stores decimal values.
pub trait DecimalNative: Sized + Copy {
    spec fn int_value(&self) -> int;

    spec fn min_int() -> int;

    spec fn max_int() -> int;

    spec fn max_precision() -> nat;

    spec fn max_scale() -> int;

    spec fn kind() -> DecimalKind;

    proof fn lemma_value_in_range(&self)
        ensures
            Self::min_int() <= self.int_value() <= Self::max_int(),
    ;

    proof fn lemma_bounds()
        ensures
            i256_min() <= Self::min_int(),
            Self::max_int() <= i256_max(),
            Self::max_int() >= 0x7fff_ffff_ffff_ffff_ffff_ffff_ffff_ffff,
            Self::min_int() == -Self::max_int() - 1,
            pow10(Self::max_precision()) - 1 <= Self::max_int(),
    ;

    proof fn lemma_value_injective(a: Self, b: Self)
        ensures
            a.int_value() == b.int_value() ==> a == b,
    ;

    fn decimal_kind() -> (r: DecimalKind)
        ensures
            r == Self::kind(),
    ;

    fn max_precision_u8() -> (r: u8)
        ensures
            r as nat == Self::max_precision(),
            r <= 76,
    ;

    fn max_scale_i8() -> (r: i8)
        ensures
            r as int == Self::max_scale(),
            0 <= r <= 76,
    ;

    /// Narrow a 256-bit value, `None` when it does not fit.
    fn from_i256(v: I256) -> (r: Option<Self>)
        ensures
            r is Some <==> (Self::min_int() <= v.value() <= Self::max_int()),
            r matches Some(x) ==> x.int_value() == v.value(),
    ;

    fn to_i256(&self) -> (r: I256)
        ensures
            r.value() == self.int_value(),
    ;

    /// The value has at most `precision` digits and `precision` is legal for
    /// this width.
    fn is_valid_decimal_precision(&self, precision: u8) -> (r: bool)
        ensures
            r == (precision as nat <= Self::max_precision() && fits_precision(
                self.int_value(),
                precision as nat,
            )),
    ;
}

/// Relies on `Decimal128Type::is_valid_decimal_precision`: a table lookup
/// that admits exactly the values of at most `precision` (at most 38) digits.
#[verifier::external_body]
fn i128_fits_precision(v: i128, precision: u8) -> (r: bool)
    ensures
        r == (precision <= 38 && fits_precision(v as int, precision as nat)),
{
    Decimal128Type::is_valid_decimal_precision(v, precision)
}

/// Relies on `Decimal256Type::is_valid_decimal_precision`: a table lookup
/// that admits exactly the values of at most `precision` (at most 76) digits.
#[verifier::external_body]
fn i256_fits_precision(v: I256, precision: u8) -> (r: bool)
    ensures
        r == (precision <= 76 && fits_precision(v.value(), precision as nat)),
{
    Decimal256Type::is_valid_decimal_precision(ArrowI256::from_parts(v.low, v.high), precision)
}

impl DecimalNative for i128 {
    open spec fn int_value(&self) -> int {
        *self as int
    }

    open spec fn min_int() -> int {
        i128::MIN as int
    }

    open spec fn max_int() -> int {
        i128::MAX as int
    }

    open spec fn max_precision() -> nat {
        38
    }

    open spec fn max_scale() -> int {
        38
    }

    open spec fn kind() -> DecimalKind {
        DecimalKind::Decimal128
    }

    proof fn lemma_value_in_range(&self) {
    }

    proof fn lemma_bounds() {
        reveal_with_fuel(pow10, 39);
        assert(pow10(38) == 100000000000000000000000000000000000000);
    }

    proof fn lemma_value_injective(a: Self, b: Self) {
    }

    fn decimal_kind() -> (r: DecimalKind) {
        DecimalKind::Decimal128
    }

    fn max_precision_u8() -> (r: u8) {
        38
    }

    fn max_scale_i8() -> (r: i8) {
        38
    }

    fn from_i256(v: I256) -> (r: Option<Self>) {
        to_i128(v)
    }

    fn to_i256(&self) -> (r: I256) {
        I256::from_i128(*self)
    }

    fn is_valid_decimal_precision(&self, precision: u8) -> (r: bool) {
        i128_fits_precision(*self, precision)
    }
}

impl DecimalNative for I256 {
    open spec fn int_value(&self) -> int {
        self.value()
    }

    open spec fn min_int() -> int {
        i256_min()
    }

    open spec fn max_int() -> int {
        i256_max()
    }

    open spec fn max_precision() -> nat {
        76
    }

    open spec fn max_scale() -> int {
        76
    }

    open spec fn kind() -> DecimalKind {
        DecimalKind::Decimal256
    }

    proof fn lemma_value_in_range(&self) {
        self.lemma_range();
    }

    proof fn lemma_bounds() {
        reveal_with_fuel(pow10, 39);
        assert(pow10(38) == 100000000000000000000000000000000000000);
        lemma_pow10_split(38, 38);
    }

    proof fn lemma_value_injective(a: Self, b: Self) {
        crate::i256::lemma_parts_determined(a, b);
    }

    fn decimal_kind() -> (r: DecimalKind) {
        DecimalKind::Decimal256
    }

    fn max_precision_u8() -> (r: u8) {
        76
    }

    fn max_scale_i8() -> (r: i8) {
        76
    }

    fn from_i256(v: I256) -> (r: Option<Self>) {
        proof {
            v.lemma_range();
        }
        Some(v)
    }

    fn to_i256(&self) -> (r: I256) {
        *self
    }

    fn is_valid_decimal_precision(&self, precision: u8) -> (r: bool) {
        i256_fits_precision(*self, precision)
    }
}

/// An integer type that decimals can be cast to.
pub trait IntegerTarget: Sized + Copy {
    spec fn target_value(&self) -> int;

    spec fn target_min() -> int;

    spec fn target_max() -> int;

    /// The same value, when it lies in this type's range.
    fn from_i128_checked(v: i128) -> (r: Option<Self>)
        ensures
            r is Some <==> (Self::target_min() <= v as int <= Self::target_max()),
            r matches Some(x) ==> x.target_value() == v as int,
    ;

    /// The type's name, as errors show it.
    spec fn target_text() -> Seq<char>;

    fn target_name() -> (r: &'static str)
        ensures
            r@ == Self::target_text(),
    ;

    proof fn lemma_target_within_i128()
        ensures
            i128::MIN <= Self::target_min() <= Self::target_max() <= i128::MAX,
    ;
}

impl IntegerTarget for i8 {
    open spec fn target_text() -> Seq<char> {
        "Int8"@
    }

    open spec fn target_value(&self) -> int {
        *self as int
    }

    open spec fn target_min() -> int {
        i8::MIN as int
    }

    open spec fn target_max() -> int {
        i8::MAX as int
    }

    fn from_i128_checked(v: i128) -> (r: Option<Self>) {
        if i8::MIN as i128 <= v && v <= i8::MAX as i128 {
            Some(v as i8)
        } else {
            None
        }
    }

    proof fn lemma_target_within_i128() {
    }

    fn target_name() -> (r: &'static str) {
        "Int8"
    }
}

impl IntegerTarget for i16 {
    open spec fn target_text() -> Seq<char> {
        "Int16"@
    }

    open spec fn target_value(&self) -> int {
        *self as int
    }

    open spec fn target_min() -> int {
        i16::MIN as int
    }

    open spec fn target_max() -> int {
        i16::MAX as int
    }

    fn from_i128_checked(v: i128) -> (r: Option<Self>) {
        if i16::MIN as i128 <= v && v <= i16::MAX as i128 {
            Some(v as i16)
        } else {
            None
        }
    }

    proof fn lemma_target_within_i128() {
    }

    fn target_name() -> (r: &'static str) {
        "Int16"
    }
}

impl IntegerTarget for i32 {
    open spec fn target_text() -> Seq<char> {
        "Int32"@
    }

    open spec fn target_value(&self) -> int {
        *self as int
    }

    open spec fn target_min() -> int {
        i32::MIN as int
    }

    open spec fn target_max() -> int {
        i32::MAX as int
    }

    fn from_i128_checked(v: i128) -> (r: Option<Self>) {
        if i32::MIN as i128 <= v && v <= i32::MAX as i128 {
            Some(v as i32)
        } else {
            None
        }
    }

    proof fn lemma_target_within_i128() {
    }

    fn target_name() -> (r: &'static str) {
        "Int32"
    }
}

impl IntegerTarget for i64 {
    open spec fn target_text() -> Seq<char> {
        "Int64"@
    }

    open spec fn target_value(&self) -> int {
        *self as int
    }

    open spec fn target_min() -> int {
        i64::MIN as int
    }

    open spec fn target_max() -> int {
        i64::MAX as int
    }

    fn from_i128_checked(v: i128) -> (r: Option<Self>) {
        if i64::MIN as i128 <= v && v <= i64::MAX as i128 {
            Some(v as i64)
        } else {
            None
        }
    }

    proof fn lemma_target_within_i128() {
    }

    fn target_name() -> (r: &'static str) {
        "Int64"
    }
}

impl IntegerTarget for u8 {
    open spec fn target_text() -> Seq<char> {
        "UInt8"@
    }

    open spec fn target_value(&self) -> int {
        *self as int
    }

    open spec fn target_min() -> int {
        0 as int
    }

    open spec fn target_max() -> int {
        u8::MAX as int
    }

    fn from_i128_checked(v: i128) -> (r: Option<Self>) {
        if 0 as i128 <= v && v <= u8::MAX as i128 {
            Some(v as u8)
        } else {
            None
        }
    }

    proof fn lemma_target_within_i128() {
    }

    fn target_name() -> (r: &'static str) {
        "UInt8"
    }
}

impl IntegerTarget for u16 {
    open spec fn target_text() -> Seq<char> {
        "UInt16"@
    }

    open spec fn target_value(&self) -> int {
        *self as int
    }

    open spec fn target_min() -> int {
        0 as int
    }

    open spec fn target_max() -> int {
        u16::MAX as int
    }

    fn from_i128_checked(v: i128) -> (r: Option<Self>) {
        if 0 as i128 <= v && v <= u16::MAX as i128 {
            Some(v as u16)
        } else {
            None
        }
    }

    proof fn lemma_target_within_i128() {
    }

    fn target_name() -> (r: &'static str) {
        "UInt16"
    }
}

impl IntegerTarget for u32 {
    open spec fn target_text() -> Seq<char> {
        "UInt32"@
    }

    open spec fn target_value(&self) -> int {
        *self as int
    }

    open spec fn target_min() -> int {
        0 as int
    }

    open spec fn target_max() -> int {
        u32::MAX as int
    }

    fn from_i128_checked(v: i128) -> (r: Option<Self>) {
        if 0 as i128 <= v && v <= u32::MAX as i128 {
            Some(v as u32)
        } else {
            None
        }
    }

    proof fn lemma_target_within_i128() {
    }

    fn target_name() -> (r: &'static str) {
        "UInt32"
    }
}

impl IntegerTarget for u64 {
    open spec fn target_text() -> Seq<char> {
        "UInt64"@
    }

    open spec fn target_value(&self) -> int {
        *self as int
    }

    open spec fn target_min() -> int {
        0 as int
    }

    open spec fn target_max() -> int {
        u64::MAX as int
    }

    fn from_i128_checked(v: i128) -> (r: Option<Self>) {
        if 0 as i128 <= v && v <= u64::MAX as i128 {
            Some(v as u64)
        } else {
            None
        }
    }

    proof fn lemma_target_within_i128() {
    }

    fn target_name() -> (r: &'static str) {
        "UInt64"
    }
}

} // verus!

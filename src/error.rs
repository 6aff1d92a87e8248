//! Errors of both engines, and the cast policy they share.

use vstd::prelude::*;
use arrow_buffer::i256 as ArrowI256;
use crate::i256::I256;
use crate::native::{DecimalKind, kind_text};
use crate::temporal::{DatePart, TemporalType, part_text, type_text};

verus! {

/// How per-value failures are handled: with `safe` they become nulls, without
/// it the first one aborts the whole call.
#[derive(Clone, Copy, Debug, PartialEq, Eq, Structural)]
pub struct CastOptions {
    pub safe: bool,
}

/// Why a precision / scale pair is not legal for a decimal width.
#[derive(Clone, Copy, Debug, PartialEq, Eq, Structural)]
pub enum PrecisionScaleIssue {
    ZeroPrecision,
    PrecisionAboveMax,
    ScaleAboveMax,
    ScaleAbovePrecision,
}

#[derive(Clone, Debug)]
pub enum KernelError {
    /// The encoding has no such part.
    UnsupportedPart { part: DatePart, data_type: TemporalType },
    /// The timestamp's time zone could not be parsed.
    InvalidTimezone { name: String },
    /// The precision / scale pair is not legal for the decimal width.
    InvalidPrecisionScale { kind: DecimalKind, precision: u8, scale: i8, issue: PrecisionScaleIssue },
    /// The power of ten for a scale change does not fit the width.
    ScaleOverflow { kind: DecimalKind, exponent: u32 },
    /// The power of ten for a decimal's scale overflows its width.
    IntegerScaleOverflow { kind: DecimalKind, scale: i8 },
    /// A value does not fit the target width after rescaling.
    DecimalOverflow { kind: DecimalKind, precision: u8, scale: i8, value: I256 },
    /// The value at `index`, converted outside the library, does not fit the
    /// target decimal type.
    ConvertedValueOverflow { kind: DecimalKind, precision: u8, scale: i8, index: usize },
    /// A rescaled value has more digits than the target precision allows.
    PrecisionOverflow { kind: DecimalKind, precision: u8, value: I256 },
    /// Text that is not a decimal number.
    InvalidDecimalFormat { text: String },
    /// Decimal text whose digits overflow the 256-bit intermediate, or
    /// that holds no digit at all.
    DecimalTextOverflow { text: String, kind: DecimalKind },
    /// Decimal text whose value does not fit the target width.
    DecimalTextOutOfRange { text: String, kind: DecimalKind },
    /// A string that could not be cast to the decimal type.
    StringCastFailure { text: String, kind: DecimalKind },
    /// A negative scale was asked of a string cast.
    NegativeScale { scale: i8 },
    /// A scale above the width's maximum was asked of a string cast.
    ScaleAboveMax { kind: DecimalKind },
    /// A decimal value is out of the range of the target integer type.
    IntegerOutOfRange { value: I256, target: &'static str },
}

/// The pieces joined in order.
pub open spec fn joined(parts: Seq<Seq<char>>) -> Seq<char>
    decreases parts.len(),
{
    if parts.len() == 0 {
        Seq::empty()
    } else {
        joined(parts.drop_last()) + parts.last()
    }
}

pub open spec fn digit_char(d: int) -> char {
    if d == 0 {
        '0'
    } else if d == 1 {
        '1'
    } else if d == 2 {
        '2'
    } else if d == 3 {
        '3'
    } else if d == 4 {
        '4'
    } else if d == 5 {
        '5'
    } else if d == 6 {
        '6'
    } else if d == 7 {
        '7'
    } else if d == 8 {
        '8'
    } else {
        '9'
    }
}

/// The decimal digits of `n`, without leading zeros.
pub open spec fn digits_text(n: nat) -> Seq<char>
    decreases n,
{
    if n < 10 {
        seq![digit_char(n as int)]
    } else {
        digits_text(n / 10) + seq![digit_char((n % 10) as int)]
    }
}

/// `v` written in decimal, with a leading `-` when negative.
pub open spec fn decimal_text(v: int) -> Seq<char> {
    if v < 0 {
        seq!['-'] + digits_text((-v) as nat)
    } else {
        digits_text(v as nat)
    }
}

/// Relies on `[&str]::concat`: the pieces joined in order.
#[verifier::external_body]
fn concat_all(parts: &Vec<&str>) -> (r: String)
    ensures
        r@ == joined(parts@.map_values(|p: &str| p@)),
{
    parts.concat()
}

/// Relies on `format!` with `i128`'s `Display`: the decimal digits, with a
/// leading `-` when negative.
#[verifier::external_body]
fn int_text(v: i128) -> (r: String)
    ensures
        r@ == decimal_text(v as int),
{
    format!("{v}")
}

/// Relies on the `Display` of `arrow_buffer`'s `i256`: the decimal digits,
/// with a leading `-` when negative.
#[verifier::external_body]
fn i256_text(v: I256) -> (r: String)
    ensures
        r@ == decimal_text(v.value()),
{
    ArrowI256::from_parts(v.low, v.high).to_string()
}

/// The largest precision and scale of a width.
pub open spec fn kind_max(kind: DecimalKind) -> int {
    match kind {
        DecimalKind::Decimal128 => 38,
        DecimalKind::Decimal256 => 76,
    }
}

fn max_of(kind: DecimalKind) -> (r: i128)
    ensures
        r == kind_max(kind),
{
    match kind {
        DecimalKind::Decimal128 => 38,
        DecimalKind::Decimal256 => 76,
    }
}

/// Why a precision and scale are not legal, in words.
pub open spec fn issue_text(issue: PrecisionScaleIssue, kind: DecimalKind, precision: u8, scale: i8) -> Seq<
    char,
> {
    let p = decimal_text(precision as int);
    let s = decimal_text(scale as int);
    let m = decimal_text(kind_max(kind));
    match issue {
        PrecisionScaleIssue::ZeroPrecision => joined(
            seq!["precision cannot be 0, has to be between [1, "@, m, "]"@],
        ),
        PrecisionScaleIssue::PrecisionAboveMax => joined(
            seq!["precision "@, p, " is greater than max "@, m],
        ),
        PrecisionScaleIssue::ScaleAboveMax => joined(seq!["scale "@, s, " is greater than max "@, m]),
        PrecisionScaleIssue::ScaleAbovePrecision => joined(
            seq!["scale "@, s, " is greater than precision "@, p],
        ),
    }
}

/// Whether a value is above or below the precision's range, in words.
pub open spec fn size_text(v: int) -> Seq<char> {
    if v >= 0 {
        " is too large to store in a "@
    } else {
        " is too small to store in a "@
    }
}

/// The text of an error, prefixed with its category.
pub open spec fn message_text(e: KernelError) -> Seq<char> {
    match e {
        KernelError::UnsupportedPart { part, data_type } => joined(
            seq!["Compute error: "@, part_text(part), " does not support: "@, type_text(data_type)],
        ),
        KernelError::InvalidTimezone { name } => joined(
            seq!["Parser error: Invalid timezone \""@, name@, "\""@],
        ),
        KernelError::InvalidPrecisionScale { kind, precision, scale, issue } => joined(
            seq!["Invalid argument error: "@, issue_text(issue, kind, precision, scale)],
        ),
        KernelError::ScaleOverflow { kind, exponent } => joined(
            seq!["Arithmetic overflow: Overflow happened on: 10 ^ "@, decimal_text(exponent as int), " in "@, kind_text(kind)],
        ),
        KernelError::IntegerScaleOverflow { kind, scale } => joined(
            seq!["Cast error: Cannot cast to \""@, kind_text(kind), "\". The scale "@, decimal_text(scale as int), " causes overflow."@],
        ),
        KernelError::DecimalOverflow { kind, precision, scale, value } => joined(
            seq!["Cast error: Cannot cast to "@, kind_text(kind), "("@, decimal_text(precision as int), ", "@, decimal_text(scale as int), "). Overflowing on "@, decimal_text(value.value())],
        ),
        KernelError::ConvertedValueOverflow { kind, precision, scale, index } => joined(
            seq!["Cast error: Cannot cast to "@, kind_text(kind), "("@, decimal_text(precision as int), ", "@, decimal_text(scale as int), "). Overflowing on the value at "@, decimal_text(index as int)],
        ),
        KernelError::PrecisionOverflow { kind, precision, value } => joined(
            seq!["Invalid argument error: "@, decimal_text(value.value()), size_text(value.value()), kind_text(kind), " of precision "@, decimal_text(precision as int)],
        ),
        KernelError::InvalidDecimalFormat { text } => joined(
            seq!["Invalid argument error: Invalid decimal format: \""@, text@, "\""@],
        ),
        KernelError::DecimalTextOverflow { text, kind } => joined(
            seq!["Invalid argument error: Cannot convert "@, text@, " to "@, kind_text(kind), ": Overflow"@],
        ),
        KernelError::DecimalTextOutOfRange { text, kind } => joined(
            seq!["Invalid argument error: Cannot convert "@, text@, " to "@, kind_text(kind)],
        ),
        KernelError::StringCastFailure { text, kind } => joined(
            seq!["Cast error: Cannot cast string '"@, text@, "' to value of "@, kind_text(kind), " type"@],
        ),
        KernelError::NegativeScale { scale } => joined(
            seq!["Invalid argument error: Cannot cast string to decimal with negative scale "@, decimal_text(scale as int)],
        ),
        KernelError::ScaleAboveMax { kind } => joined(
            seq!["Invalid argument error: Cannot cast string to decimal greater than maximum scale "@, decimal_text(kind_max(kind))],
        ),
        KernelError::IntegerOutOfRange { value, target } => joined(
            seq!["Cast error: value of "@, decimal_text(value.value()), " is out of range "@, target@],
        ),
    }
}

impl PrecisionScaleIssue {
    fn describe(&self, kind: DecimalKind, precision: u8, scale: i8) -> (r: String)
        ensures
            r@ == issue_text(*self, kind, precision, scale),
    {
        let p = int_text(precision as i128);
        let s = int_text(scale as i128);
        let m = int_text(max_of(kind));
        match self {
            PrecisionScaleIssue::ZeroPrecision => {
                let parts = vec!["precision cannot be 0, has to be between [1, ", m.as_str(), "]"];
                proof {
                    assert(parts@.map_values(|x: &str| x@) =~= seq!["precision cannot be 0, has to be between [1, "@, m@, "]"@]);
                }
                concat_all(&parts)
            },
            PrecisionScaleIssue::PrecisionAboveMax => {
                let parts = vec!["precision ", p.as_str(), " is greater than max ", m.as_str()];
                proof {
                    assert(parts@.map_values(|x: &str| x@) =~= seq!["precision "@, p@, " is greater than max "@, m@]);
                }
                concat_all(&parts)
            },
            PrecisionScaleIssue::ScaleAboveMax => {
                let parts = vec!["scale ", s.as_str(), " is greater than max ", m.as_str()];
                proof {
                    assert(parts@.map_values(|x: &str| x@) =~= seq!["scale "@, s@, " is greater than max "@, m@]);
                }
                concat_all(&parts)
            },
            PrecisionScaleIssue::ScaleAbovePrecision => {
                let parts = vec!["scale ", s.as_str(), " is greater than precision ", p.as_str()];
                proof {
                    assert(parts@.map_values(|x: &str| x@) =~= seq!["scale "@, s@, " is greater than precision "@, p@]);
                }
                concat_all(&parts)
            },
        }
    }
}

impl KernelError {
    /// The error as text, prefixed with its category.
    #[verifier::spinoff_prover]
    #[verifier::rlimit(60)]
    pub fn message(&self) -> (r: String)
        ensures
            r@ == message_text(*self),
    {
        match self {
            KernelError::UnsupportedPart { part, data_type } => {
                let parts = vec!["Compute error: ", part.name(), " does not support: ", data_type.name()];
                proof {
                    assert(parts@.map_values(|x: &str| x@) =~= seq!["Compute error: "@, part_text(*part), " does not support: "@, type_text(*data_type)]);
                }
                concat_all(&parts)
            },
            KernelError::InvalidTimezone { name } => {
                let parts = vec!["Parser error: Invalid timezone \"", name.as_str(), "\""];
                proof {
                    assert(parts@.map_values(|x: &str| x@) =~= seq!["Parser error: Invalid timezone \""@, name@, "\""@]);
                }
                concat_all(&parts)
            },
            KernelError::InvalidPrecisionScale { kind, precision, scale, issue } => {
                let d = issue.describe(*kind, *precision, *scale);
                let parts = vec!["Invalid argument error: ", d.as_str()];
                proof {
                    assert(parts@.map_values(|x: &str| x@) =~= seq!["Invalid argument error: "@, issue_text(*issue, *kind, *precision, *scale)]);
                }
                concat_all(&parts)
            },
            KernelError::ScaleOverflow { kind, exponent } => {
                let e = int_text(*exponent as i128);
                let parts = vec!["Arithmetic overflow: Overflow happened on: 10 ^ ", e.as_str(), " in ", kind.name()];
                proof {
                    assert(parts@.map_values(|x: &str| x@) =~= seq!["Arithmetic overflow: Overflow happened on: 10 ^ "@, decimal_text(*exponent as int), " in "@, kind_text(*kind)]);
                }
                concat_all(&parts)
            },
            KernelError::IntegerScaleOverflow { kind, scale } => {
                let s = int_text(*scale as i128);
                let parts = vec!["Cast error: Cannot cast to \"", kind.name(), "\". The scale ", s.as_str(), " causes overflow."];
                proof {
                    assert(parts@.map_values(|x: &str| x@) =~= seq!["Cast error: Cannot cast to \""@, kind_text(*kind), "\". The scale "@, decimal_text(*scale as int), " causes overflow."@]);
                }
                concat_all(&parts)
            },
            KernelError::DecimalOverflow { kind, precision, scale, value } => {
                let p = int_text(*precision as i128);
                let s = int_text(*scale as i128);
                let v = i256_text(*value);
                let parts = vec!["Cast error: Cannot cast to ", kind.name(), "(", p.as_str(), ", ", s.as_str(), "). Overflowing on ", v.as_str()];
                proof {
                    assert(parts@.map_values(|x: &str| x@) =~= seq!["Cast error: Cannot cast to "@, kind_text(*kind), "("@, decimal_text(*precision as int), ", "@, decimal_text(*scale as int), "). Overflowing on "@, decimal_text(value.value())]);
                }
                concat_all(&parts)
            },
            KernelError::ConvertedValueOverflow { kind, precision, scale, index } => {
                let p = int_text(*precision as i128);
                let s = int_text(*scale as i128);
                let i = int_text(*index as i128);
                let parts = vec!["Cast error: Cannot cast to ", kind.name(), "(", p.as_str(), ", ", s.as_str(), "). Overflowing on the value at ", i.as_str()];
                proof {
                    assert(parts@.map_values(|x: &str| x@) =~= seq!["Cast error: Cannot cast to "@, kind_text(*kind), "("@, decimal_text(*precision as int), ", "@, decimal_text(*scale as int), "). Overflowing on the value at "@, decimal_text(*index as int)]);
                }
                concat_all(&parts)
            },
            KernelError::PrecisionOverflow { kind, precision, value } => {
                let p = int_text(*precision as i128);
                let v = i256_text(*value);
                let size = if I256::zero().le(value) {
                    " is too large to store in a "
                } else {
                    " is too small to store in a "
                };
                let parts = vec!["Invalid argument error: ", v.as_str(), size, kind.name(), " of precision ", p.as_str()];
                proof {
                    assert(parts@.map_values(|x: &str| x@) =~= seq!["Invalid argument error: "@, decimal_text(value.value()), size_text(value.value()), kind_text(*kind), " of precision "@, decimal_text(*precision as int)]);
                }
                concat_all(&parts)
            },
            KernelError::InvalidDecimalFormat { text } => {
                let parts = vec!["Invalid argument error: Invalid decimal format: \"", text.as_str(), "\""];
                proof {
                    assert(parts@.map_values(|x: &str| x@) =~= seq!["Invalid argument error: Invalid decimal format: \""@, text@, "\""@]);
                }
                concat_all(&parts)
            },
            KernelError::DecimalTextOverflow { text, kind } => {
                let parts = vec!["Invalid argument error: Cannot convert ", text.as_str(), " to ", kind.name(), ": Overflow"];
                proof {
                    assert(parts@.map_values(|x: &str| x@) =~= seq!["Invalid argument error: Cannot convert "@, text@, " to "@, kind_text(*kind), ": Overflow"@]);
                }
                concat_all(&parts)
            },
            KernelError::DecimalTextOutOfRange { text, kind } => {
                let parts = vec!["Invalid argument error: Cannot convert ", text.as_str(), " to ", kind.name()];
                proof {
                    assert(parts@.map_values(|x: &str| x@) =~= seq!["Invalid argument error: Cannot convert "@, text@, " to "@, kind_text(*kind)]);
                }
                concat_all(&parts)
            },
            KernelError::StringCastFailure { text, kind } => {
                let parts = vec!["Cast error: Cannot cast string '", text.as_str(), "' to value of ", kind.name(), " type"];
                proof {
                    assert(parts@.map_values(|x: &str| x@) =~= seq!["Cast error: Cannot cast string '"@, text@, "' to value of "@, kind_text(*kind), " type"@]);
                }
                concat_all(&parts)
            },
            KernelError::NegativeScale { scale } => {
                let s = int_text(*scale as i128);
                let parts = vec!["Invalid argument error: Cannot cast string to decimal with negative scale ", s.as_str()];
                proof {
                    assert(parts@.map_values(|x: &str| x@) =~= seq!["Invalid argument error: Cannot cast string to decimal with negative scale "@, decimal_text(*scale as int)]);
                }
                concat_all(&parts)
            },
            KernelError::ScaleAboveMax { kind } => {
                let m = int_text(max_of(*kind));
                let parts = vec!["Invalid argument error: Cannot cast string to decimal greater than maximum scale ", m.as_str()];
                proof {
                    assert(parts@.map_values(|x: &str| x@) =~= seq!["Invalid argument error: Cannot cast string to decimal greater than maximum scale "@, decimal_text(kind_max(*kind))]);
                }
                concat_all(&parts)
            },
            KernelError::IntegerOutOfRange { value, target } => {
                let v = i256_text(*value);
                let parts = vec!["Cast error: value of ", v.as_str(), " is out of range ", *target];
                proof {
                    assert(parts@.map_values(|x: &str| x@) =~= seq!["Cast error: value of "@, decimal_text(value.value()), " is out of range "@, target@]);
                }
                concat_all(&parts)
            },
        }
    }
}

} // verus!

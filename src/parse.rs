//! Parsing decimal text into fixed-width decimal values, and the cast of a
//! string column to decimals.

use vstd::prelude::*;
use vstd::string::StrSliceExecFns;
use crate::decimal::{
    in_width, precision_ok, precision_scale_error, precision_scale_issue,
    round_half_away, validate_decimal_precision_and_scale,
};
use crate::error::{CastOptions, KernelError};
use crate::i256::{
    I256, all_digits, checked_add, checked_mul, checked_pow, checked_sub, digits_value, div_trunc,
    lemma_pow10_monotone, lemma_pow10_positive, lemma_pow10_split,
    i256_max, i256_min, in_i256_range, is_digit, parse_digits, pow10, rem_trunc,
};
use crate::native::{DecimalKind, DecimalNative};

verus! {

/// `t` holds two or more decimal points.
pub open spec fn two_dots(t: Seq<char>) -> bool {
    exists|i: int, j: int| 0 <= i < j < t.len() && t[i] == '.' && t[j] == '.'
}

/// Where the decimal point stands, or the length when there is none.
pub open spec fn dot_pos(t: Seq<char>) -> int {
    if exists|k: int| 0 <= k < t.len() && t[k] == '.' {
        choose|k: int| 0 <= k < t.len() && t[k] == '.'
    } else {
        t.len() as int
    }
}

/// The text before the point.
pub open spec fn head_part(t: Seq<char>) -> Seq<char> {
    t.take(dot_pos(t))
}

/// The digits after the point.
pub open spec fn frac_part(t: Seq<char>) -> Seq<char> {
    if dot_pos(t) < t.len() {
        t.skip(dot_pos(t) + 1)
    } else {
        Seq::empty()
    }
}

pub open spec fn has_sign(t: Seq<char>) -> bool {
    head_part(t).len() > 0 && (head_part(t)[0] == '-' || head_part(t)[0] == '+')
}

pub open spec fn is_negative_text(t: Seq<char>) -> bool {
    head_part(t).len() > 0 && head_part(t)[0] == '-'
}

/// The digits before the point.
pub open spec fn int_part(t: Seq<char>) -> Seq<char> {
    if has_sign(t) {
        head_part(t).skip(1)
    } else {
        head_part(t)
    }
}

/// Optional sign, digits, optional point, digits.
pub open spec fn well_formed_decimal(t: Seq<char>) -> bool {
    !two_dots(t) && all_digits(int_part(t)) && all_digits(frac_part(t))
}

/// The magnitude of the number at `scale`: excess fraction digits are
/// rounded half away from zero, missing ones count as zeros.
pub open spec fn text_magnitude(t: Seq<char>, scale: nat) -> int {
    let f = frac_part(t);
    let whole = digits_value(int_part(t)) * pow10(scale);
    if f.len() > scale {
        whole + round_half_away(digits_value(f), pow10((f.len() - scale) as nat))
    } else {
        whole + digits_value(f) * pow10((scale - f.len()) as nat)
    }
}

pub open spec fn text_value(t: Seq<char>, scale: nat) -> int {
    if is_negative_text(t) {
        -text_magnitude(t, scale)
    } else {
        text_magnitude(t, scale)
    }
}

/// Why decimal text does not parse.
#[derive(Clone, Copy, Debug, PartialEq, Eq, Structural)]
pub enum TextIssue {
    /// Not of the decimal grammar.
    Malformed,
    /// Beyond the 256-bit intermediate, or without any digit.
    Overflow,
    /// The power of ten that drops the excess fraction digits overflows.
    ScaleOverflow,
    /// A number that the target width cannot hold.
    OutOfRange,
}

/// Why `t` does not parse to the width `T` at `scale`, if it does not.
pub open spec fn text_issue<T: DecimalNative>(t: Seq<char>, scale: nat) -> Option<TextIssue> {
    let f = frac_part(t);
    if !well_formed_decimal(t) {
        Some(TextIssue::Malformed)
    } else if f.len() > scale && digits_value(f) > i256_max() {
        Some(TextIssue::Overflow)
    } else if f.len() > scale && pow10((f.len() - scale) as nat) > i256_max() {
        Some(TextIssue::ScaleOverflow)
    } else if f.len() <= scale && int_part(t).len() + f.len() == 0 && scale == 0 {
        Some(TextIssue::Overflow)
    } else if f.len() > scale && text_magnitude(t, scale) > i256_max() {
        Some(TextIssue::Overflow)
    } else if f.len() <= scale && !in_i256_range(text_value(t, scale)) {
        Some(TextIssue::Overflow)
    } else if !in_width::<T>(text_value(t, scale)) {
        Some(TextIssue::OutOfRange)
    } else {
        None
    }
}

/// `e` reports the issue `issue` of the text `t`.
pub open spec fn text_error<T: DecimalNative>(e: KernelError, issue: TextIssue, t: Seq<char>, scale: nat) -> bool {
    match issue {
        TextIssue::Malformed => e matches KernelError::InvalidDecimalFormat { text } && text@ == t,
        TextIssue::Overflow => e matches KernelError::DecimalTextOverflow { text, kind } && text@
            == t && kind == T::kind(),
        TextIssue::ScaleOverflow => e == KernelError::ScaleOverflow {
            kind: DecimalKind::Decimal256,
            exponent: (frac_part(t).len() - scale) as u32,
        },
        TextIssue::OutOfRange => e matches KernelError::DecimalTextOutOfRange { text, kind } && text@
            == t && kind == T::kind(),
    }
}

/// What parsing `t` at `scale` into the width `T` gives.
pub open spec fn parse_outcome<T: DecimalNative>(t: Seq<char>, scale: nat, r: Result<T, KernelError>) -> bool {
    match text_issue::<T>(t, scale) {
        None => r matches Ok(x) && x.int_value() == text_value(t, scale),
        Some(issue) => r matches Err(e) && text_error::<T>(e, issue, t, scale),
    }
}

/// The negated number spelled by a run of digits (zero for none), when it
/// is at least the 256-bit minimum.
fn neg_digits_to_i256(s: &str) -> (r: Option<I256>)
    requires
        all_digits(s@),
    ensures
        r is Some <==> -digits_value(s@) >= i256_min(),
        r matches Some(v) ==> v.value() == -digits_value(s@),
{
    let n = s.unicode_len();
    if n == 0 {
        return Some(I256::zero());
    }
    let head = s.substring_char(0, n - 1);
    let d = s.get_char(n - 1);
    proof {
        assert(head@ =~= s@.drop_last());
        assert(all_digits(head@)) by {
            assert forall|i: int| 0 <= i < head@.len() implies is_digit(#[trigger] head@[i]) by {
                assert(head@[i] == s@[i]);
            }
        }
        assert(is_digit(s@[n - 1]));
        lemma_digits_value_nonneg(head@);
    }
    let digit = I256::from_i128((d as u32 - '0' as u32) as i128);
    let ten = I256::from_i128(10);
    let a = match digits_to_i256(head) {
        Some(a) => a,
        None => {
            return None;
        },
    };
    let na = match checked_sub(I256::zero(), a) {
        Some(v) => v,
        None => {
            return None;
        },
    };
    match checked_mul(na, ten) {
        Some(t) => checked_sub(t, digit),
        None => None,
    }
}

/// `v * 10^k` for `v <= 0`, when it is at least the 256-bit minimum.
fn mul_pow10_nonpos(v: I256, k: usize) -> (r: Option<I256>)
    requires
        v.value() <= 0,
    ensures
        r is Some <==> v.value() * pow10(k as nat) >= i256_min(),
        r matches Some(w) ==> w.value() == v.value() * pow10(k as nat),
{
    proof {
        lemma_pow10_positive(k as nat);
        lemma_pow10_77();
    }
    if I256::zero().le(&v) {
        assert(v.value() * pow10(k as nat) == 0);
        return Some(v);
    }
    if k > 76 {
        proof {
            lemma_pow10_monotone(77, k as nat);
            assert(v.value() * pow10(k as nat) <= -pow10(k as nat)) by (nonlinear_arith)
                requires
                    v.value() <= -1,
                    pow10(k as nat) >= 1,
            ;
        }
        return None;
    }
    proof {
        lemma_pow10_monotone(k as nat, 76);
        assert(v.value() * pow10(k as nat) <= 0) by (nonlinear_arith)
            requires
                v.value() <= -1,
                pow10(k as nat) >= 1,
        ;
    }
    match checked_pow(I256::from_i128(10), k as u32) {
        Some(p) => checked_mul(v, p),
        None => None,
    }
}

pub proof fn lemma_digits_value_nonneg(s: Seq<char>)
    requires
        all_digits(s),
    ensures
        digits_value(s) >= 0,
    decreases s.len(),
{
    if s.len() > 0 {
        assert(is_digit(s[s.len() - 1]));
        assert(all_digits(s.drop_last())) by {
            assert forall|i: int| 0 <= i < s.drop_last().len() implies is_digit(
                #[trigger] s.drop_last()[i],
            ) by {
                assert(s.drop_last()[i] == s[i]);
            }
        }
        lemma_digits_value_nonneg(s.drop_last());
    }
}

/// All characters of `s` are ASCII digits.
fn is_all_digits(s: &str) -> (r: bool)
    ensures
        r == all_digits(s@),
{
    let n = s.unicode_len();
    let mut i: usize = 0;
    while i < n
        invariant
            n == s@.len(),
            0 <= i <= n,
            forall|j: int| 0 <= j < i ==> is_digit(#[trigger] s@[j]),
        decreases n - i,
    {
        let c = s.get_char(i);
        if !('0' <= c && c <= '9') {
            return false;
        }
        i += 1;
    }
    true
}

/// The number spelled by a run of digits (zero for none), when it fits.
fn digits_to_i256(s: &str) -> (r: Option<I256>)
    requires
        all_digits(s@),
    ensures
        r is Some <==> digits_value(s@) <= i256_max(),
        r matches Some(v) ==> v.value() == digits_value(s@),
{
    if s.unicode_len() == 0 {
        Some(I256::zero())
    } else {
        parse_digits(s)
    }
}

/// `v * 10^k` when it fits 256 bits.
fn mul_pow10(v: I256, k: usize) -> (r: Option<I256>)
    requires
        v.value() >= 0,
    ensures
        r is Some <==> v.value() * pow10(k as nat) <= i256_max(),
        r matches Some(w) ==> w.value() == v.value() * pow10(k as nat),
{
    proof {
        lemma_pow10_positive(k as nat);
    }
    if v.le(&I256::zero()) {
        assert(v.value() * pow10(k as nat) == 0);
        return Some(v);
    }
    if k > 4294967295 {
        proof {
            lemma_pow10_monotone(77, k as nat);
            lemma_pow10_77();
            assert(v.value() * pow10(k as nat) >= pow10(k as nat)) by (nonlinear_arith)
                requires
                    v.value() >= 1,
                    pow10(k as nat) >= 1,
            ;
        }
        return None;
    }
    match checked_pow(I256::from_i128(10), k as u32) {
        Some(p) => checked_mul(v, p),
        None => {
            proof {
                assert(v.value() * pow10(k as nat) >= pow10(k as nat)) by (nonlinear_arith)
                    requires
                        v.value() >= 1,
                        pow10(k as nat) >= 1,
                ;
            }
            None
        },
    }
}

proof fn lemma_pow10_77()
    ensures
        pow10(77) > i256_max() + 1,
        pow10(76) < i256_max(),
{
    reveal_with_fuel(pow10, 40);
    assert(pow10(38) == 100000000000000000000000000000000000000);
    lemma_pow10_split(38, 39);
    reveal_with_fuel(pow10, 40);
    assert(pow10(39) == 1000000000000000000000000000000000000000);
    lemma_pow10_split(38, 38);
}

/// Parses decimal text that carries no surrounding whitespace into the width
/// `T` at `scale`.
pub fn parse_trimmed_decimal<T: DecimalNative>(text: &str, scale: usize) -> (r: Result<T, KernelError>)
    ensures
        parse_outcome::<T>(text@, scale as nat, r),
{
    let t = Ghost(text@);
    let n = text.unicode_len();
    let mut dots: usize = 0;
    let mut dot: usize = n;
    let mut i: usize = 0;
    while i < n
        invariant
            n == t@.len(),
            t@ == text@,
            0 <= i <= n,
            dots <= 1,
            dots == 0 ==> dot == n && forall|j: int| 0 <= j < i ==> t@[j] != '.',
            dots == 1 ==> dot < i && t@[dot as int] == '.' && forall|j: int|
                0 <= j < i && j != dot ==> t@[j] != '.',
        decreases n - i,
    {
        if text.get_char(i) == '.' {
            if dots == 1 {
                proof {
                    assert(two_dots(t@)) by {
                        assert(0 <= dot < i < t@.len() && t@[dot as int] == '.' && t@[i as int]
                            == '.');
                    }
                }
                return Err(KernelError::InvalidDecimalFormat { text: text.to_owned() });
            }
            dots = 1;
            dot = i;
        }
        i += 1;
    }
    proof {
        if dots == 1 {
            assert(t@[dot as int] == '.');
            assert(dot_pos(t@) == dot as int);
        } else {
            assert(dot_pos(t@) == n as int);
        }
        assert(!two_dots(t@));
    }
    let head = text.substring_char(0, dot);
    let frac = if dot < n {
        text.substring_char(dot + 1, n)
    } else {
        text.substring_char(n, n)
    };
    proof {
        assert(head@ =~= head_part(t@));
        assert(frac@ =~= frac_part(t@));
    }
    let hn = head.unicode_len();
    let (negative, ints) = if hn > 0 {
        let c = head.get_char(0);
        if c == '-' {
            (true, head.substring_char(1, hn))
        } else if c == '+' {
            (false, head.substring_char(1, hn))
        } else {
            (false, head)
        }
    } else {
        (false, head)
    };
    proof {
        assert(ints@ =~= int_part(t@));
        assert(negative == is_negative_text(t@));
    }
    if !is_all_digits(ints) || !is_all_digits(frac) {
        return Err(KernelError::InvalidDecimalFormat { text: text.to_owned() });
    }
    proof {
        lemma_digits_value_nonneg(ints@);
        lemma_digits_value_nonneg(frac@);
        lemma_pow10_positive(scale as nat);
    }
    let fnum = frac.unicode_len();
    let value: Option<I256> = if fnum > scale {
        let fv = match digits_to_i256(frac) {
            Some(v) => v,
            None => {
                return Err(KernelError::DecimalTextOverflow { text: text.to_owned(), kind: T::decimal_kind() });
            },
        };
        let div = match mul_pow10(I256::from_i128(1), fnum - scale) {
            Some(d) => d,
            None => {
                return Err(KernelError::ScaleOverflow {
                    kind: DecimalKind::Decimal256,
                    exponent: (fnum - scale) as u32,
                });
            },
        };
        proof {
            lemma_pow10_positive((fnum - scale) as nat);
        }
        let adjusted = round_nonneg(fv, div);
        let whole = match digits_to_i256(ints) {
            Some(v) => mul_pow10(v, scale),
            None => None,
        };
        proof {
            lemma_round_nonneg_bounds(fv.value(), div.value());
            if digits_value(ints@) > i256_max() {
                assert(digits_value(ints@) * pow10(scale as nat) >= digits_value(ints@))
                    by (nonlinear_arith)
                    requires
                        digits_value(ints@) >= 0,
                        pow10(scale as nat) >= 1,
                ;
            }
        }
        let magnitude = match whole {
            Some(w) => checked_add(w, adjusted),
            None => None,
        };
        match magnitude {
            Some(m) => if negative {
                checked_sub(I256::zero(), m)
            } else {
                Some(m)
            },
            None => None,
        }
    } else {
        if ints.unicode_len() == 0 && fnum == 0 && scale == 0 {
            return Err(KernelError::DecimalTextOverflow { text: text.to_owned(), kind: T::decimal_kind() });
        }
        proof {
            lemma_pow10_positive((scale - fnum) as nat);
            let a = digits_value(ints@);
            let b = digits_value(frac@);
            let pa = pow10(scale as nat);
            let pb = pow10((scale - fnum) as nat);
            assert(a * pa >= a && a * pa >= 0 && b * pb >= b && b * pb >= 0) by (nonlinear_arith)
                requires
                    a >= 0,
                    b >= 0,
                    pa >= 1,
                    pb >= 1,
            ;
            assert((-a) * pa == -(a * pa) && (-b) * pb == -(b * pb)) by (nonlinear_arith);
            assert(text_magnitude(t@, scale as nat) == a * pa + b * pb);
        }
        if negative {
            // built downward so that the 256-bit minimum itself is reached
            let whole = match neg_digits_to_i256(ints) {
                Some(v) => mul_pow10_nonpos(v, scale),
                None => None,
            };
            let part = match neg_digits_to_i256(frac) {
                Some(v) => mul_pow10_nonpos(v, scale - fnum),
                None => None,
            };
            match (whole, part) {
                (Some(w), Some(p)) => checked_add(w, p),
                _ => None,
            }
        } else {
            let whole = match digits_to_i256(ints) {
                Some(v) => mul_pow10(v, scale),
                None => None,
            };
            let part = match digits_to_i256(frac) {
                Some(v) => mul_pow10(v, scale - fnum),
                None => None,
            };
            match (whole, part) {
                (Some(w), Some(p)) => checked_add(w, p),
                _ => None,
            }
        }
    };
    let value = match value {
        Some(v) => v,
        None => {
            return Err(KernelError::DecimalTextOverflow { text: text.to_owned(), kind: T::decimal_kind() });
        },
    };
    proof {
        T::lemma_bounds();
    }
    match T::from_i256(value) {
        Some(x) => Ok(x),
        None => Err(KernelError::DecimalTextOutOfRange { text: text.to_owned(), kind: T::decimal_kind() }),
    }
}

proof fn lemma_round_nonneg_bounds(x: int, div: int)
    requires
        x >= 0,
        div >= 10,
    ensures
        0 <= round_half_away(x, div) <= x,
{
    vstd::arithmetic::div_mod::lemma_div_is_ordered_by_denominator(x, 2, div);
    vstd::arithmetic::div_mod::lemma_div_pos_is_pos(x, div);
    vstd::arithmetic::div_mod::lemma_div_is_ordered_by_denominator(x, 1, 2);
    if x / div == x {
        assert(x / div * div <= x) by {
            vstd::arithmetic::div_mod::lemma_fundamental_div_mod(x, div);
            vstd::arithmetic::div_mod::lemma_mod_pos_bound(x, div);
        }
        assert(x == 0) by (nonlinear_arith)
            requires
                x / div == x,
                x / div * div <= x,
                div >= 10,
                x >= 0,
        ;
    }
}

/// `x / div` rounded half away from zero, for `x >= 0`.
fn round_nonneg(x: I256, div: I256) -> (r: I256)
    requires
        x.value() >= 0,
        div.value() >= 10,
    ensures
        r.value() == round_half_away(x.value(), div.value()),
{
    let d = div_trunc(x, div);
    let rm = rem_trunc(x, div);
    let half = div_trunc(div, I256::from_i128(2));
    proof {
        lemma_round_nonneg_bounds(x.value(), div.value());
        x.lemma_range();
    }
    if half.le(&rm) {
        match checked_add(d, I256::from_i128(1)) {
            Some(v) => v,
            None => d,
        }
    } else {
        d
    }
}

/// A character of Unicode's `White_Space` property.
pub open spec fn is_white_space(c: char) -> bool {
    ('\u{9}' <= c <= '\u{d}') || c == ' ' || c == '\u{85}' || c == '\u{a0}' || c == '\u{1680}'
        || ('\u{2000}' <= c <= '\u{200a}') || c == '\u{2028}' || c == '\u{2029}' || c == '\u{202f}'
        || c == '\u{205f}' || c == '\u{3000}'
}

/// The text without its leading white space.
pub open spec fn trim_start(s: Seq<char>) -> Seq<char>
    decreases s.len(),
{
    if s.len() > 0 && is_white_space(s[0]) {
        trim_start(s.drop_first())
    } else {
        s
    }
}

/// The text without its trailing white space.
pub open spec fn trim_end(s: Seq<char>) -> Seq<char>
    decreases s.len(),
{
    if s.len() > 0 && is_white_space(s.last()) {
        trim_end(s.drop_last())
    } else {
        s
    }
}

/// The text without leading and trailing white space.
pub open spec fn trimmed(s: Seq<char>) -> Seq<char> {
    trim_end(trim_start(s))
}

/// Relies on `str::trim`: the text with leading and trailing characters of
/// Unicode's `White_Space` property removed.
#[verifier::external_body]
fn trim_text(s: &str) -> (r: &str)
    ensures
        r@ == trimmed(s@),
{
    s.trim()
}

/// Parses decimal text, surrounded by any white space, into the width `T` at
/// `scale`.
pub fn parse_string_to_decimal_native<T: DecimalNative>(value_str: &str, scale: usize) -> (r: Result<
    T,
    KernelError,
>)
    ensures
        parse_outcome::<T>(trimmed(value_str@), scale as nat, r),
{
    parse_trimmed_decimal::<T>(trim_text(value_str), scale)
}

/// The string `s` comes through the cast to precision `precision`.
pub open spec fn string_element_ok<T: DecimalNative>(s: Seq<char>, precision: u8, scale: i8) -> bool {
    text_issue::<T>(trimmed(s), scale as nat) is None && precision_ok::<T>(
        text_value(trimmed(s), scale as nat),
        precision,
    )
}

/// `out` holds the parsed strings of `a`, null where one fails.
pub open spec fn parsed_column<T: DecimalNative>(
    a: Seq<Option<String>>,
    out: Seq<Option<T>>,
    precision: u8,
    scale: i8,
) -> bool {
    &&& out.len() == a.len()
    &&& forall|i: int|
        0 <= i < a.len() ==> match a[i] {
            None => #[trigger] out[i] is None,
            Some(s) => if string_element_ok::<T>(s@, precision, scale) {
                out[i] matches Some(y) && y.int_value() == text_value(trimmed(s@), scale as nat)
            } else {
                out[i] is None
            },
        }
}

/// `e` names the first string of `a` that fails.
pub open spec fn first_string_error<T: DecimalNative>(
    e: KernelError,
    a: Seq<Option<String>>,
    precision: u8,
    scale: i8,
) -> bool {
    exists|i: int|
        {
            &&& 0 <= i < a.len()
            &&& #[trigger] a[i] is Some
            &&& !string_element_ok::<T>(a[i]->Some_0@, precision, scale)
            &&& if text_issue::<T>(trimmed(a[i]->Some_0@), scale as nat) is Some {
                e matches KernelError::StringCastFailure { text, kind } && text@ == a[i]->Some_0@
                    && kind == T::kind()
            } else {
                e matches KernelError::PrecisionOverflow { kind, precision: p, value } && kind
                    == T::kind() && p == precision && value.value() == text_value(
                    trimmed(a[i]->Some_0@),
                    scale as nat,
                )
            }
            &&& forall|j: int|
                0 <= j < i && #[trigger] a[j] is Some ==> string_element_ok::<T>(
                    a[j]->Some_0@,
                    precision,
                    scale,
                )
        }
}

/// What casting the string column `a` gives.
pub open spec fn string_cast_outcome<T: DecimalNative>(
    a: Seq<Option<String>>,
    precision: u8,
    scale: i8,
    safe: bool,
    r: Result<Vec<Option<T>>, KernelError>,
) -> bool {
    let fails = exists|i: int|
        0 <= i < a.len() && #[trigger] a[i] is Some && !string_element_ok::<T>(
            a[i]->Some_0@,
            precision,
            scale,
        );
    if !safe && fails {
        r matches Err(e) && first_string_error::<T>(e, a, precision, scale)
    } else if precision_scale_issue::<T>(precision, scale) is Some {
        r == Err::<Vec<Option<T>>, KernelError>(precision_scale_error::<T>(precision, scale))
    } else {
        r matches Ok(out) && parsed_column::<T>(a, out@, precision, scale)
    }
}

/// Casts a column of strings to decimals of `precision` and `scale`.
pub fn generic_string_to_decimal_cast<T: DecimalNative>(
    from: &Vec<Option<String>>,
    precision: u8,
    scale: i8,
    cast_options: &CastOptions,
) -> (r: Result<Vec<Option<T>>, KernelError>)
    requires
        scale >= 0,
    ensures
        string_cast_outcome::<T>(from@, precision, scale, cast_options.safe, r),
{
    let mut out: Vec<Option<T>> = Vec::new();
    let mut i: usize = 0;
    while i < from.len()
        invariant
            0 <= i <= from@.len(),
            out@.len() == i,
            scale >= 0,
            forall|j: int|
                0 <= j < i ==> match from@[j] {
                    None => #[trigger] out@[j] is None,
                    Some(s) => if string_element_ok::<T>(s@, precision, scale) {
                        out@[j] matches Some(y) && y.int_value() == text_value(
                            trimmed(s@),
                            scale as nat,
                        )
                    } else {
                        out@[j] is None
                    },
                },
            !cast_options.safe ==> forall|j: int|
                0 <= j < i && #[trigger] from@[j] is Some ==> string_element_ok::<T>(
                    from@[j]->Some_0@,
                    precision,
                    scale,
                ),
        decreases from@.len() - i,
    {
        match &from[i] {
            None => out.push(None),
            Some(s) => {
                let parsed = parse_string_to_decimal_native::<T>(s.as_str(), scale as usize);
                match parsed {
                    Ok(v) => {
                        if v.is_valid_decimal_precision(precision) {
                            out.push(Some(v));
                        } else if cast_options.safe {
                            out.push(None);
                        } else {
                            proof {
                                assert(from@[i as int] is Some);
                            }
                            return Err(KernelError::PrecisionOverflow {
                                kind: T::decimal_kind(),
                                precision,
                                value: v.to_i256(),
                            });
                        }
                    },
                    Err(_) => {
                        if cast_options.safe {
                            out.push(None);
                        } else {
                            proof {
                                assert(from@[i as int] is Some);
                            }
                            return Err(KernelError::StringCastFailure {
                                text: s.clone(),
                                kind: T::decimal_kind(),
                            });
                        }
                    },
                }
            },
        }
        i += 1;
    }
    match validate_decimal_precision_and_scale::<T>(precision, scale) {
        Ok(()) => Ok(out),
        Err(e) => Err(e),
    }
}

/// Casts a column of strings to decimals, first checking that the scale is
/// neither negative nor above the width's maximum.
pub fn cast_string_to_decimal<T: DecimalNative>(
    from: &Vec<Option<String>>,
    precision: u8,
    scale: i8,
    cast_options: &CastOptions,
) -> (r: Result<Vec<Option<T>>, KernelError>)
    ensures
        scale < 0 ==> r == Err::<Vec<Option<T>>, KernelError>(KernelError::NegativeScale { scale }),
        scale >= 0 && scale as int > T::max_scale() ==> r == Err::<Vec<Option<T>>, KernelError>(
            KernelError::ScaleAboveMax { kind: T::kind() },
        ),
        0 <= scale as int <= T::max_scale() ==> string_cast_outcome::<T>(
            from@,
            precision,
            scale,
            cast_options.safe,
            r,
        ),
{
    if scale < 0 {
        return Err(KernelError::NegativeScale { scale });
    }
    if scale > T::max_scale_i8() {
        return Err(KernelError::ScaleAboveMax { kind: T::decimal_kind() });
    }
    generic_string_to_decimal_cast::<T>(from, precision, scale, cast_options)
}

} // verus!

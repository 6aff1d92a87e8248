//! The decimal rescale engine: changing precision and scale, and the casts
//! from decimals to integers and floats.

use vstd::prelude::*;
use crate::error::{CastOptions, KernelError, PrecisionScaleIssue};
use crate::i256::{
    I256, checked_add, lemma_pow10_monotone, lemma_pow10_positive, checked_mul, checked_pow, checked_sub, div_trunc, i256_max, i256_min,
    pow10, rem_trunc, trunc_div, trunc_rem,
};
use crate::native::{DecimalNative, IntegerTarget, fits_precision};

verus! {

/// Division by a positive `div` that rounds half away from zero.
pub open spec fn round_half_away(x: int, div: int) -> int {
    let d = trunc_div(x, div);
    let r = trunc_rem(x, div);
    let half = div / 2;
    if x >= 0 {
        if r >= half {
            d + 1
        } else {
            d
        }
    } else {
        if r <= -half {
            d - 1
        } else {
            d
        }
    }
}

/// The value `x`, stored at scale `in_s`, restated at scale `out_s`.
pub open spec fn rescale_value(x: int, in_s: int, out_s: int) -> int {
    if out_s >= in_s {
        x * pow10((out_s - in_s) as nat)
    } else {
        round_half_away(x, pow10((in_s - out_s) as nat))
    }
}

pub open spec fn in_width<N: DecimalNative>(v: int) -> bool {
    N::min_int() <= v <= N::max_int()
}

/// Every value of `in_p` digits is sure to fit `out_p` digits after the
/// scale change, so no value needs a precision check.
pub open spec fn cast_is_infallible(in_p: int, in_s: int, out_p: int, out_s: int) -> bool {
    if out_s >= in_s {
        in_p + (out_s - in_s) <= out_p
    } else {
        in_p - (in_s - out_s) < out_p
    }
}

/// The power of ten for the scale change fits the width it is computed in:
/// the input width when shrinking, the output width when growing.
pub open spec fn scale_factor_fits<I: DecimalNative, O: DecimalNative>(in_s: int, out_s: int) -> bool {
    if out_s >= in_s {
        pow10((out_s - in_s) as nat) <= O::max_int()
    } else {
        pow10((in_s - out_s) as nat) <= I::max_int()
    }
}

/// `v` passes the precision-fit predicate of width `O`.
pub open spec fn precision_ok<O: DecimalNative>(v: int, p: u8) -> bool {
    p as nat <= O::max_precision() && fits_precision(v, p as nat)
}

/// The element `x` comes through the cast.
pub open spec fn element_ok<O: DecimalNative>(x: int, in_p: u8, in_s: i8, out_p: u8, out_s: i8) -> bool {
    let v = rescale_value(x, in_s as int, out_s as int);
    in_width::<O>(v) && (cast_is_infallible(in_p as int, in_s as int, out_p as int, out_s as int)
        || precision_ok::<O>(v, out_p))
}

/// `out` is the column `a` rescaled, with a null where an element fails.
pub open spec fn rescaled_column<I: DecimalNative, O: DecimalNative>(
    a: Seq<Option<I>>,
    out: Seq<Option<O>>,
    in_p: u8,
    in_s: i8,
    out_p: u8,
    out_s: i8,
) -> bool {
    &&& out.len() == a.len()
    &&& forall|i: int|
        0 <= i < a.len() ==> match a[i] {
            None => #[trigger] out[i] is None,
            Some(x) => if element_ok::<O>(x.int_value(), in_p, in_s, out_p, out_s) {
                out[i] matches Some(y) && y.int_value() == rescale_value(
                    x.int_value(),
                    in_s as int,
                    out_s as int,
                )
            } else {
                out[i] is None
            },
        }
}

/// Some non-null element of `a` fails the cast.
pub open spec fn some_element_fails<I: DecimalNative, O: DecimalNative>(
    a: Seq<Option<I>>,
    in_p: u8,
    in_s: i8,
    out_p: u8,
    out_s: i8,
) -> bool {
    exists|i: int|
        {
            &&& 0 <= i < a.len()
            &&& #[trigger] a[i] is Some
            &&& !element_ok::<O>(a[i]->Some_0.int_value(), in_p, in_s, out_p, out_s)
        }
}

/// `e` is the error that names the failing element `x`.
/// Whether the rescaled value overflows the width or only the precision,
/// the error is a cast error that names the input value and the target type.
pub open spec fn element_error<O: DecimalNative>(e: KernelError, x: int, out_p: u8, out_s: i8, in_s: i8) -> bool {
    e matches KernelError::DecimalOverflow { kind, precision, scale, value } && kind == O::kind()
        && precision == out_p && scale == out_s && value.value() == x
}

/// `e` names the first failing element of `a`.
pub open spec fn first_element_error<I: DecimalNative, O: DecimalNative>(
    e: KernelError,
    a: Seq<Option<I>>,
    in_p: u8,
    in_s: i8,
    out_p: u8,
    out_s: i8,
) -> bool {
    exists|i: int|
        {
            &&& 0 <= i < a.len()
            &&& #[trigger] a[i] is Some
            &&& !element_ok::<O>(a[i]->Some_0.int_value(), in_p, in_s, out_p, out_s)
            &&& element_error::<O>(e, a[i]->Some_0.int_value(), out_p, out_s, in_s)
            &&& forall|j: int|
                0 <= j < i && #[trigger] a[j] is Some ==> element_ok::<O>(
                    a[j]->Some_0.int_value(),
                    in_p,
                    in_s,
                    out_p,
                    out_s,
                )
        }
}

/// Why `precision` and `scale` are not legal for width `T`, if they are not.
pub open spec fn precision_scale_issue<T: DecimalNative>(precision: u8, scale: i8) -> Option<
    PrecisionScaleIssue,
> {
    if precision == 0 {
        Some(PrecisionScaleIssue::ZeroPrecision)
    } else if precision as nat > T::max_precision() {
        Some(PrecisionScaleIssue::PrecisionAboveMax)
    } else if scale as int > T::max_scale() {
        Some(PrecisionScaleIssue::ScaleAboveMax)
    } else if scale > 0 && scale as int > precision as int {
        Some(PrecisionScaleIssue::ScaleAbovePrecision)
    } else {
        None
    }
}

pub open spec fn precision_scale_error<T: DecimalNative>(precision: u8, scale: i8) -> KernelError {
    KernelError::InvalidPrecisionScale {
        kind: T::kind(),
        precision,
        scale,
        issue: precision_scale_issue::<T>(precision, scale)->Some_0,
    }
}

/// Checks that `precision` and `scale` are legal for the decimal width `T`.
pub fn validate_decimal_precision_and_scale<T: DecimalNative>(precision: u8, scale: i8) -> (r: Result<
    (),
    KernelError,
>)
    ensures
        r is Ok <==> precision_scale_issue::<T>(precision, scale) is None,
        r is Err ==> r == Err::<(), KernelError>(precision_scale_error::<T>(precision, scale)),
{
    let max_p = T::max_precision_u8();
    let max_s = T::max_scale_i8();
    let issue = if precision == 0 {
        PrecisionScaleIssue::ZeroPrecision
    } else if precision > max_p {
        PrecisionScaleIssue::PrecisionAboveMax
    } else if scale > max_s {
        PrecisionScaleIssue::ScaleAboveMax
    } else if scale > 0 && scale as u8 > precision {
        PrecisionScaleIssue::ScaleAbovePrecision
    } else {
        return Ok(());
    };
    Err(KernelError::InvalidPrecisionScale { kind: T::decimal_kind(), precision, scale, issue })
}

/// `10^exp` when it fits the width `N`.
fn pow10_within<N: DecimalNative>(exp: u32) -> (r: Option<I256>)
    ensures
        r is Some <==> pow10(exp as nat) <= N::max_int(),
        r matches Some(v) ==> v.value() == pow10(exp as nat),
{
    proof {
        lemma_pow10_positive(exp as nat);
        N::lemma_bounds();
    }
    let ten = I256::from_i128(10);
    match checked_pow(ten, exp) {
        Some(p) => match N::from_i256(p) {
            Some(_) => Some(p),
            None => None,
        },
        None => None,
    }
}

proof fn lemma_quotient_margin(x: int, div: int)
    requires
        div >= 2,
        i256_min() <= x <= i256_max(),
    ensures
        i256_min() < trunc_div(x, div) - 1,
        trunc_div(x, div) + 1 < i256_max(),
        0 <= div / 2 <= div,
{
    if x >= 0 {
        vstd::arithmetic::div_mod::lemma_div_is_ordered_by_denominator(x, 2, div);
        vstd::arithmetic::div_mod::lemma_div_pos_is_pos(x, div);
    } else {
        vstd::arithmetic::div_mod::lemma_div_is_ordered_by_denominator(-x, 2, div);
        vstd::arithmetic::div_mod::lemma_div_pos_is_pos(-x, div);
    }
}

/// `x / div`, rounded half away from zero.
fn div_round_half_away(x: I256, div: I256) -> (r: I256)
    requires
        div.value() >= 2,
    ensures
        r.value() == round_half_away(x.value(), div.value()),
{
    let zero = I256::zero();
    let one = I256::from_i128(1);
    let d = div_trunc(x, div);
    let rm = rem_trunc(x, div);
    let half = div_trunc(div, I256::from_i128(2));
    proof {
        x.lemma_range();
        div.lemma_range();
        lemma_quotient_margin(x.value(), div.value());
    }
    if zero.le(&x) {
        if half.le(&rm) {
            match checked_add(d, one) {
                Some(v) => v,
                None => d,
            }
        } else {
            d
        }
    } else {
        let half_neg = match checked_sub(zero, half) {
            Some(v) => v,
            None => zero,
        };
        if rm.le(&half_neg) {
            match checked_sub(d, one) {
                Some(v) => v,
                None => d,
            }
        } else {
            d
        }
    }
}

/// One element rescaled by `factor` (divided with rounding when `shrink`,
/// else multiplied), narrowed to the width `O`.
fn rescale_element<O: DecimalNative>(x: I256, factor: I256, shrink: bool) -> (r: Option<O>)
    requires
        factor.value() >= 1,
        shrink ==> factor.value() >= 10,
    ensures
        ({
            let v = if shrink {
                round_half_away(x.value(), factor.value())
            } else {
                x.value() * factor.value()
            };
            &&& r is Some <==> in_width::<O>(v)
            &&& r matches Some(y) ==> y.int_value() == v
        }),
{
    proof {
        O::lemma_bounds();
    }
    if shrink {
        O::from_i256(div_round_half_away(x, factor))
    } else {
        match checked_mul(x, factor) {
            Some(p) => O::from_i256(p),
            None => None,
        }
    }
}

/// Applies the rescale to every element of the column under the policy.
fn rescale_column<I: DecimalNative, O: DecimalNative>(
    array: &Vec<Option<I>>,
    factor: I256,
    input_precision: u8,
    input_scale: i8,
    output_precision: u8,
    output_scale: i8,
    infallible: bool,
    safe: bool,
) -> (r: Result<Vec<Option<O>>, KernelError>)
    requires
        output_scale >= input_scale ==> factor.value() == pow10(
            (output_scale - input_scale) as nat,
        ),
        output_scale < input_scale ==> factor.value() == pow10(
            (input_scale - output_scale) as nat,
        ),
        infallible == cast_is_infallible(
            input_precision as int,
            input_scale as int,
            output_precision as int,
            output_scale as int,
        ),
    ensures
        r matches Ok(out) ==> rescaled_column::<I, O>(
            array@,
            out@,
            input_precision,
            input_scale,
            output_precision,
            output_scale,
        ),
        r is Ok <==> (safe || !some_element_fails::<I, O>(
            array@,
            input_precision,
            input_scale,
            output_precision,
            output_scale,
        )),
        r matches Err(e) ==> first_element_error::<I, O>(
            e,
            array@,
            input_precision,
            input_scale,
            output_precision,
            output_scale,
        ),
{
    let shrink = output_scale < input_scale;
    proof {
        if shrink {
            lemma_pow10_positive((input_scale - output_scale) as nat);
        } else {
            lemma_pow10_positive((output_scale - input_scale) as nat);
        }
    }
    let mut out: Vec<Option<O>> = Vec::new();
    let mut i: usize = 0;
    while i < array.len()
        invariant
            0 <= i <= array@.len(),
            out@.len() == i,
            shrink == (output_scale < input_scale),
            factor.value() >= 1,
            shrink ==> factor.value() >= 10,
            output_scale >= input_scale ==> factor.value() == pow10(
                (output_scale - input_scale) as nat,
            ),
            output_scale < input_scale ==> factor.value() == pow10(
                (input_scale - output_scale) as nat,
            ),
            infallible == cast_is_infallible(
                input_precision as int,
                input_scale as int,
                output_precision as int,
                output_scale as int,
            ),
            forall|j: int|
                0 <= j < i ==> match array@[j] {
                    None => #[trigger] out@[j] is None,
                    Some(x) => if element_ok::<O>(
                        x.int_value(),
                        input_precision,
                        input_scale,
                        output_precision,
                        output_scale,
                    ) {
                        out@[j] matches Some(y) && y.int_value() == rescale_value(
                            x.int_value(),
                            input_scale as int,
                            output_scale as int,
                        )
                    } else {
                        out@[j] is None
                    },
                },
            !safe ==> forall|j: int|
                0 <= j < i && #[trigger] array@[j] is Some ==> element_ok::<O>(
                    array@[j]->Some_0.int_value(),
                    input_precision,
                    input_scale,
                    output_precision,
                    output_scale,
                ),
        decreases array@.len() - i,
    {
        match array[i] {
            None => out.push(None),
            Some(x) => {
                let wide = x.to_i256();
                let v = rescale_element::<O>(wide, factor, shrink);
                let ok = match v {
                    Some(y) => infallible || y.is_valid_decimal_precision(output_precision),
                    None => false,
                };
                if ok {
                    out.push(v);
                } else if safe {
                    out.push(None);
                } else {
                    let err = KernelError::DecimalOverflow {
                        kind: O::decimal_kind(),
                        precision: output_precision,
                        scale: output_scale,
                        value: wide,
                    };
                    proof {
                        assert(array@[i as int] is Some);
                    }
                    return Err(err);
                }
            },
        }
        i += 1;
    }
    proof {
        if !safe {
            assert(!some_element_fails::<I, O>(
                array@,
                input_precision,
                input_scale,
                output_precision,
                output_scale,
            ));
        }
    }
    Ok(out)
}

/// The exponent of the scale change.
pub open spec fn scale_delta(in_s: i8, out_s: i8) -> int {
    if out_s < in_s {
        in_s - out_s
    } else {
        out_s - in_s
    }
}

/// What a conversion from scale `in_s` to `out_s` returns. With
/// `validate_after`, the output precision and scale are checked once the
/// elements are done.
pub open spec fn conversion_outcome<I: DecimalNative, O: DecimalNative>(
    a: Seq<Option<I>>,
    in_p: u8,
    in_s: i8,
    out_p: u8,
    out_s: i8,
    safe: bool,
    validate_after: bool,
    r: Result<Vec<Option<O>>, KernelError>,
) -> bool {
    let inf = cast_is_infallible(in_p as int, in_s as int, out_p as int, out_s as int);
    let issue = precision_scale_issue::<O>(out_p, out_s);
    if !scale_factor_fits::<I, O>(in_s as int, out_s as int) {
        r == Err::<Vec<Option<O>>, KernelError>(
            KernelError::ScaleOverflow {
                kind: if out_s < in_s {
                    I::kind()
                } else {
                    O::kind()
                },
                exponent: scale_delta(in_s, out_s) as u32,
            },
        )
    } else if inf && issue is Some {
        r == Err::<Vec<Option<O>>, KernelError>(precision_scale_error::<O>(out_p, out_s))
    } else if !safe && some_element_fails::<I, O>(a, in_p, in_s, out_p, out_s) {
        r matches Err(e) && first_element_error::<I, O>(e, a, in_p, in_s, out_p, out_s)
    } else if validate_after && issue is Some {
        r == Err::<Vec<Option<O>>, KernelError>(precision_scale_error::<O>(out_p, out_s))
    } else {
        r matches Ok(out) && rescaled_column::<I, O>(a, out@, in_p, in_s, out_p, out_s)
    }
}

/// Shared body of the two conversions.
fn convert_decimal<I: DecimalNative, O: DecimalNative>(
    array: &Vec<Option<I>>,
    input_precision: u8,
    input_scale: i8,
    output_precision: u8,
    output_scale: i8,
    cast_options: &CastOptions,
) -> (r: Result<Vec<Option<O>>, KernelError>)
    ensures
        conversion_outcome::<I, O>(
            array@,
            input_precision,
            input_scale,
            output_precision,
            output_scale,
            cast_options.safe,
            false,
            r,
        ),
{
    let shrink = output_scale < input_scale;
    let delta: i16 = if shrink {
        input_scale as i16 - output_scale as i16
    } else {
        output_scale as i16 - input_scale as i16
    };
    let factor = if shrink {
        pow10_within::<I>(delta as u32)
    } else {
        pow10_within::<O>(delta as u32)
    };
    let factor = match factor {
        Some(f) => f,
        None => {
            let kind = if shrink {
                I::decimal_kind()
            } else {
                O::decimal_kind()
            };
            return Err(KernelError::ScaleOverflow { kind, exponent: delta as u32 });
        },
    };
    let infallible = if shrink {
        (input_precision as i16) - delta < output_precision as i16
    } else {
        (input_precision as i16) + delta <= output_precision as i16
    };
    if infallible {
        // the values go unchecked, so the target type itself must be sound
        match validate_decimal_precision_and_scale::<O>(output_precision, output_scale) {
            Ok(()) => {},
            Err(e) => return Err(e),
        }
    }
    rescale_column::<I, O>(
        array,
        factor,
        input_precision,
        input_scale,
        output_precision,
        output_scale,
        infallible,
        cast_options.safe,
    )
}

/// Rescales to a smaller scale, dividing with rounding half away from zero.
pub fn convert_to_smaller_scale_decimal<I: DecimalNative, O: DecimalNative>(
    array: &Vec<Option<I>>,
    input_precision: u8,
    input_scale: i8,
    output_precision: u8,
    output_scale: i8,
    cast_options: &CastOptions,
) -> (r: Result<Vec<Option<O>>, KernelError>)
    requires
        input_scale > output_scale,
    ensures
        conversion_outcome::<I, O>(
            array@,
            input_precision,
            input_scale,
            output_precision,
            output_scale,
            cast_options.safe,
            false,
            r,
        ),
{
    convert_decimal::<I, O>(
        array,
        input_precision,
        input_scale,
        output_precision,
        output_scale,
        cast_options,
    )
}

/// Rescales to a scale at least as large, multiplying by a power of ten.
pub fn convert_to_bigger_or_equal_scale_decimal<I: DecimalNative, O: DecimalNative>(
    array: &Vec<Option<I>>,
    input_precision: u8,
    input_scale: i8,
    output_precision: u8,
    output_scale: i8,
    cast_options: &CastOptions,
) -> (r: Result<Vec<Option<O>>, KernelError>)
    requires
        input_scale <= output_scale,
    ensures
        conversion_outcome::<I, O>(
            array@,
            input_precision,
            input_scale,
            output_precision,
            output_scale,
            cast_options.safe,
            false,
            r,
        ),
{
    convert_decimal::<I, O>(
        array,
        input_precision,
        input_scale,
        output_precision,
        output_scale,
        cast_options,
    )
}

/// Casts between two decimal widths, then checks the output type.
pub fn cast_decimal_to_decimal<I: DecimalNative, O: DecimalNative>(
    array: &Vec<Option<I>>,
    input_precision: u8,
    input_scale: i8,
    output_precision: u8,
    output_scale: i8,
    cast_options: &CastOptions,
) -> (r: Result<Vec<Option<O>>, KernelError>)
    ensures
        conversion_outcome::<I, O>(
            array@,
            input_precision,
            input_scale,
            output_precision,
            output_scale,
            cast_options.safe,
            true,
            r,
        ),
{
    let converted = if input_scale > output_scale {
        convert_to_smaller_scale_decimal::<I, O>(
            array,
            input_precision,
            input_scale,
            output_precision,
            output_scale,
            cast_options,
        )
    } else {
        convert_to_bigger_or_equal_scale_decimal::<I, O>(
            array,
            input_precision,
            input_scale,
            output_precision,
            output_scale,
            cast_options,
        )
    };
    match converted {
        Ok(out) => match validate_decimal_precision_and_scale::<O>(output_precision, output_scale) {
            Ok(()) => Ok(out),
            Err(e) => Err(e),
        },
        Err(e) => Err(e),
    }
}

/// A copy of the column.
fn copy_column<T: Copy>(array: &Vec<Option<T>>) -> (r: Vec<Option<T>>)
    ensures
        r@ == array@,
{
    let mut out: Vec<Option<T>> = Vec::new();
    let mut i: usize = 0;
    while i < array.len()
        invariant
            0 <= i <= array@.len(),
            out@ == array@.subrange(0, i as int),
        decreases array@.len() - i,
    {
        out.push(array[i]);
        i += 1;
        proof {
            assert(out@ =~= array@.subrange(0, i as int));
        }
    }
    proof {
        assert(out@ =~= array@);
    }
    out
}

/// The cast keeps the scale and does not narrow the precision: the values
/// pass unchanged.
pub open spec fn is_identity_cast(in_p: u8, in_s: i8, out_p: u8, out_s: i8) -> bool {
    in_s == out_s && in_p <= out_p
}

/// Casts within one decimal width.
pub fn cast_decimal_to_decimal_same_type<T: DecimalNative>(
    array: &Vec<Option<T>>,
    input_precision: u8,
    input_scale: i8,
    output_precision: u8,
    output_scale: i8,
    cast_options: &CastOptions,
) -> (r: Result<Vec<Option<T>>, KernelError>)
    ensures
        is_identity_cast(input_precision, input_scale, output_precision, output_scale) ==> {
            if precision_scale_issue::<T>(output_precision, output_scale) is Some {
                r == Err::<Vec<Option<T>>, KernelError>(
                    precision_scale_error::<T>(output_precision, output_scale),
                )
            } else {
                r matches Ok(out) && out@ == array@
            }
        },
        !is_identity_cast(input_precision, input_scale, output_precision, output_scale)
            ==> conversion_outcome::<T, T>(
            array@,
            input_precision,
            input_scale,
            output_precision,
            output_scale,
            cast_options.safe,
            true,
            r,
        ),
{
    if input_scale == output_scale && input_precision <= output_precision {
        let out = copy_column(array);
        match validate_decimal_precision_and_scale::<T>(output_precision, output_scale) {
            Ok(()) => Ok(out),
            Err(e) => Err(e),
        }
    } else {
        cast_decimal_to_decimal::<T, T>(
            array,
            input_precision,
            input_scale,
            output_precision,
            output_scale,
            cast_options,
        )
    }
}

proof fn lemma_exact_multiple(x: int, m: int)
    requires
        m >= 10,
    ensures
        round_half_away(x * m, m) == x,
{
    assert(m / 2 >= 5);
    if x >= 0 {
        vstd::arithmetic::div_mod::lemma_div_multiples_vanish(x, m);
        assert(x * m >= 0) by (nonlinear_arith)
            requires
                x >= 0,
                m >= 10,
        ;
        assert(x * m == m * x) by (nonlinear_arith);
        assert(trunc_div(x * m, m) == x);
        assert(trunc_rem(x * m, m) == 0);
    } else {
        vstd::arithmetic::div_mod::lemma_div_multiples_vanish(-x, m);
        assert(x * m < 0) by (nonlinear_arith)
            requires
                x < 0,
                m >= 10,
        ;
        assert(-(x * m) == m * (-x)) by (nonlinear_arith);
        assert(trunc_div(x * m, m) == x);
        assert(trunc_rem(x * m, m) == 0) by (nonlinear_arith)
            requires
                trunc_div(x * m, m) == x,
                trunc_rem(x * m, m) == x * m - m * trunc_div(x * m, m),
        ;
    }
}

/// Growing the scale by `k` digits and shrinking it back gives the value back.
pub proof fn lemma_rescale_round_trip(x: int, s1: int, s2: int)
    requires
        s1 < s2,
    ensures
        rescale_value(rescale_value(x, s1, s2), s2, s1) == x,
{
    lemma_pow10_positive((s2 - s1) as nat);
    lemma_exact_multiple(x, pow10((s2 - s1) as nat));
}

/// The column is well formed for `precision`: every value has at most that
/// many digits, and the precision is legal for the width.
pub open spec fn column_fits_precision<T: DecimalNative>(a: Seq<Option<T>>, precision: u8) -> bool {
    &&& precision as nat <= T::max_precision()
    &&& forall|i: int|
        0 <= i < a.len() && #[trigger] a[i] is Some ==> fits_precision(
            a[i]->Some_0.int_value(),
            precision as nat,
        )
}

/// A cast to the column's own precision and scale returns the column
/// unchanged.
pub proof fn lemma_same_precision_scale_is_identity<T: DecimalNative>(
    a: Seq<Option<T>>,
    precision: u8,
    scale: i8,
    safe: bool,
    r: Result<Vec<Option<T>>, KernelError>,
)
    requires
        precision_scale_issue::<T>(precision, scale) is None,
        conversion_outcome::<T, T>(a, precision, scale, precision, scale, safe, true, r),
    ensures
        r matches Ok(out) && out@ == a,
{
    T::lemma_bounds();
    assert(pow10(0) == 1);
    assert forall|i: int| 0 <= i < a.len() && #[trigger] a[i] is Some implies element_ok::<T>(
        a[i]->Some_0.int_value(),
        precision,
        scale,
        precision,
        scale,
    ) by {
        a[i]->Some_0.lemma_value_in_range();
    }
    let out = r->Ok_0;
    assert forall|i: int| 0 <= i < a.len() implies #[trigger] out@[i] == a[i] by {
        if a[i] is Some {
            a[i]->Some_0.lemma_value_in_range();
            T::lemma_value_injective(out@[i]->Some_0, a[i]->Some_0);
        }
    }
    assert(out@ =~= a);
}

/// A well-formed column cast to its own precision and scale in any width
/// keeps every value and every null, when that precision is legal for the
/// output width.
pub proof fn lemma_same_precision_scale_across_widths<I: DecimalNative, O: DecimalNative>(
    a: Seq<Option<I>>,
    precision: u8,
    scale: i8,
    safe: bool,
    r: Result<Vec<Option<O>>, KernelError>,
)
    requires
        precision_scale_issue::<O>(precision, scale) is None,
        column_fits_precision::<I>(a, precision),
        conversion_outcome::<I, O>(a, precision, scale, precision, scale, safe, true, r),
    ensures
        r matches Ok(out) && out@.len() == a.len() && forall|i: int|
            0 <= i < a.len() ==> (#[trigger] out@[i] is Some <==> a[i] is Some) && (a[i] is Some
                ==> out@[i]->Some_0.int_value() == a[i]->Some_0.int_value()),
{
    O::lemma_bounds();
    I::lemma_bounds();
    assert(pow10(0) == 1);
    lemma_pow10_monotone(precision as nat, O::max_precision());
    assert forall|i: int| 0 <= i < a.len() && #[trigger] a[i] is Some implies element_ok::<O>(
        a[i]->Some_0.int_value(),
        precision,
        scale,
        precision,
        scale,
    ) by {
        assert(fits_precision(a[i]->Some_0.int_value(), precision as nat));
    }
    assert(!some_element_fails::<I, O>(a, precision, scale, precision, scale));
    let out = r->Ok_0;
    assert forall|i: int| 0 <= i < a.len() implies (#[trigger] out@[i] is Some <==> a[i] is Some) && (
    a[i] is Some ==> out@[i]->Some_0.int_value() == a[i]->Some_0.int_value()) by {
        if a[i] is Some {
            assert(element_ok::<O>(a[i]->Some_0.int_value(), precision, scale, precision, scale));
        }
    }
}

/// Shrinking the scale rounds half away from zero: every element that comes
/// through is its value divided by `10^(in_s - out_s)` with that rounding,
/// and every element whose rounded value passes the cast comes through.
pub proof fn lemma_shrink_rounds_half_away<I: DecimalNative, O: DecimalNative>(
    a: Seq<Option<I>>,
    in_p: u8,
    in_s: i8,
    out_p: u8,
    out_s: i8,
    safe: bool,
    r: Result<Vec<Option<O>>, KernelError>,
)
    requires
        out_s < in_s,
        conversion_outcome::<I, O>(a, in_p, in_s, out_p, out_s, safe, true, r),
        r is Ok,
    ensures
        forall|i: int|
            0 <= i < a.len() && a[i] is Some && (#[trigger] r->Ok_0@[i]) is Some ==> r->Ok_0@[i]->Some_0.int_value()
                == round_half_away(a[i]->Some_0.int_value(), pow10((in_s - out_s) as nat)),
        forall|i: int|
            0 <= i < a.len() && a[i] is Some && element_ok::<O>(
                a[i]->Some_0.int_value(),
                in_p,
                in_s,
                out_p,
                out_s,
            ) ==> (#[trigger] r->Ok_0@[i]) is Some,
{
}

/// Growing a well-formed column's scale and shrinking it back to the
/// original precision and scale gives the column back, when no value
/// overflowed on the way up.
pub proof fn lemma_grow_then_shrink_round_trip<T: DecimalNative>(
    a: Seq<Option<T>>,
    p1: u8,
    s1: i8,
    p2: u8,
    s2: i8,
    safe: bool,
    grown: Vec<Option<T>>,
    r: Result<Vec<Option<T>>, KernelError>,
)
    requires
        s1 < s2,
        precision_scale_issue::<T>(p1, s1) is None,
        column_fits_precision::<T>(a, p1),
        conversion_outcome::<T, T>(a, p1, s1, p2, s2, safe, true, Ok(grown)),
        forall|i: int| 0 <= i < a.len() && #[trigger] a[i] is Some ==> grown@[i] is Some,
        conversion_outcome::<T, T>(grown@, p2, s2, p1, s1, safe, true, r),
    ensures
        r matches Ok(out) && out@ == a,
{
    T::lemma_bounds();
    lemma_pow10_positive((s2 - s1) as nat);
    let g = grown@;
    assert(rescaled_column::<T, T>(a, g, p1, s1, p2, s2));
    assert forall|i: int| 0 <= i < g.len() && #[trigger] g[i] is Some implies element_ok::<T>(
        g[i]->Some_0.int_value(),
        p2,
        s2,
        p1,
        s1,
    ) && g[i]->Some_0.int_value() == rescale_value(a[i]->Some_0.int_value(), s1 as int, s2 as int)
        && a[i] is Some by {
        if a[i] is None {
            assert(g[i] is None);
        }
        let x = a[i]->Some_0.int_value();
        assert(element_ok::<T>(x, p1, s1, p2, s2));
        lemma_rescale_round_trip(x, s1 as int, s2 as int);
        a[i]->Some_0.lemma_value_in_range();
    }
    assert(!some_element_fails::<T, T>(g, p2, s2, p1, s1));
    let out = r->Ok_0;
    assert forall|i: int| 0 <= i < a.len() implies #[trigger] out@[i] == a[i] by {
        if a[i] is Some {
            assert(g[i] is Some);
            let x = a[i]->Some_0.int_value();
            lemma_rescale_round_trip(x, s1 as int, s2 as int);
            T::lemma_value_injective(out@[i]->Some_0, a[i]->Some_0);
        } else {
            assert(g[i] is None);
        }
    }
    assert(out@ =~= a);
}

/// The integer part of `x` at scale `scale` (truncated toward zero).
pub open spec fn integer_part(x: int, scale: i8) -> int {
    trunc_div(x, pow10(scale as nat))
}

/// `10^scale` is a usable divisor for the width `D`.
pub open spec fn integer_divisor_fits<D: DecimalNative>(scale: i8) -> bool {
    scale >= 0 && pow10(scale as nat) <= D::max_int()
}

pub open spec fn fits_target<T: IntegerTarget>(v: int) -> bool {
    T::target_min() <= v <= T::target_max()
}

/// `out` holds the integer parts of `a`, null where one is out of range.
pub open spec fn integer_column<D: DecimalNative, T: IntegerTarget>(
    a: Seq<Option<D>>,
    out: Seq<Option<T>>,
    scale: i8,
) -> bool {
    &&& out.len() == a.len()
    &&& forall|i: int|
        0 <= i < a.len() ==> match a[i] {
            None => #[trigger] out[i] is None,
            Some(x) => if fits_target::<T>(integer_part(x.int_value(), scale)) {
                out[i] matches Some(y) && y.target_value() == integer_part(x.int_value(), scale)
            } else {
                out[i] is None
            },
        }
}

/// The first non-null element of `a` whose integer part is out of range is
/// the one that `e` names.
pub open spec fn first_integer_error<D: DecimalNative, T: IntegerTarget>(
    e: KernelError,
    a: Seq<Option<D>>,
    scale: i8,
) -> bool {
    exists|i: int|
        {
            &&& 0 <= i < a.len()
            &&& #[trigger] a[i] is Some
            &&& !fits_target::<T>(integer_part(a[i]->Some_0.int_value(), scale))
            &&& e matches KernelError::IntegerOutOfRange { value, target } && value.value()
                == integer_part(a[i]->Some_0.int_value(), scale) && target@ == T::target_text()
            &&& forall|j: int|
                0 <= j < i && #[trigger] a[j] is Some ==> fits_target::<T>(
                    integer_part(a[j]->Some_0.int_value(), scale),
                )
        }
}

/// Casts decimals at `scale` to an integer type: each value is divided by
/// `base^scale` (truncating) and then narrowed.
pub fn cast_decimal_to_integer<D: DecimalNative, T: IntegerTarget>(
    array: &Vec<Option<D>>,
    base: D,
    scale: i8,
    cast_options: &CastOptions,
) -> (r: Result<Vec<Option<T>>, KernelError>)
    requires
        base.int_value() == 10,
    ensures
        !integer_divisor_fits::<D>(scale) ==> r == Err::<Vec<Option<T>>, KernelError>(
            KernelError::IntegerScaleOverflow { kind: D::kind(), scale },
        ),
        integer_divisor_fits::<D>(scale) ==> {
            let fails = exists|i: int|
                0 <= i < array@.len() && #[trigger] array@[i] is Some && !fits_target::<T>(
                    integer_part(array@[i]->Some_0.int_value(), scale),
                );
            if !cast_options.safe && fails {
                r matches Err(e) && first_integer_error::<D, T>(e, array@, scale)
            } else {
                r matches Ok(out) && integer_column::<D, T>(array@, out@, scale)
            }
        },
{
    let div = if scale < 0 {
        None
    } else {
        pow10_within::<D>(scale as u32)
    };
    let div = match div {
        Some(d) => d,
        None => {
            return Err(KernelError::IntegerScaleOverflow { kind: D::decimal_kind(), scale });
        },
    };
    proof {
        lemma_pow10_positive(scale as nat);
    }
    let mut out: Vec<Option<T>> = Vec::new();
    let mut i: usize = 0;
    while i < array.len()
        invariant
            0 <= i <= array@.len(),
            out@.len() == i,
            scale >= 0,
            integer_divisor_fits::<D>(scale),
            div.value() == pow10(scale as nat),
            div.value() >= 1,
            forall|j: int|
                0 <= j < i ==> match array@[j] {
                    None => #[trigger] out@[j] is None,
                    Some(x) => if fits_target::<T>(integer_part(x.int_value(), scale)) {
                        out@[j] matches Some(y) && y.target_value() == integer_part(
                            x.int_value(),
                            scale,
                        )
                    } else {
                        out@[j] is None
                    },
                },
            !cast_options.safe ==> forall|j: int|
                0 <= j < i && #[trigger] array@[j] is Some ==> fits_target::<T>(
                    integer_part(array@[j]->Some_0.int_value(), scale),
                ),
        decreases array@.len() - i,
    {
        match array[i] {
            None => out.push(None),
            Some(x) => {
                let q = div_trunc(x.to_i256(), div);
                let v = match crate::i256::to_i128(q) {
                    Some(w) => T::from_i128_checked(w),
                    None => None,
                };
                proof {
                    T::lemma_target_within_i128();
                }
                match v {
                    Some(_) => out.push(v),
                    None => {
                        if cast_options.safe {
                            out.push(None);
                        } else {
                            proof {
                                assert(array@[i as int] is Some);
                            }
                            return Err(KernelError::IntegerOutOfRange { value: q, target: T::target_name() });
                        }
                    },
                }
            },
        }
        i += 1;
    }
    Ok(out)
}

/// Casts decimals to floating point by applying `op` to every value.
pub fn cast_decimal_to_float<D: DecimalNative, T, F: Fn(D) -> T>(
    array: &Vec<Option<D>>,
    op: F,
) -> (r: Result<Vec<Option<T>>, KernelError>)
    requires
        forall|x: D| op.requires((x,)),
    ensures
        r matches Ok(out) && out@.len() == array@.len() && forall|i: int|
            0 <= i < array@.len() ==> match array@[i] {
                None => #[trigger] out@[i] is None,
                Some(x) => out@[i] matches Some(y) && op.ensures((x,), y),
            },
{
    let mut out: Vec<Option<T>> = Vec::new();
    let mut i: usize = 0;
    while i < array.len()
        invariant
            0 <= i <= array@.len(),
            out@.len() == i,
            forall|x: D| op.requires((x,)),
            forall|j: int|
                0 <= j < i ==> match array@[j] {
                    None => #[trigger] out@[j] is None,
                    Some(x) => out@[j] matches Some(y) && op.ensures((x,), y),
                },
        decreases array@.len() - i,
    {
        match array[i] {
            None => out.push(None),
            Some(x) => {
                let y = op(x);
                out.push(Some(y));
            },
        }
        i += 1;
    }
    Ok(out)
}

/// A value converted outside the library (`None` where it did not fit the
/// width) passes the precision check.
pub open spec fn converted_ok<D: DecimalNative>(c: Option<D>, precision: u8) -> bool {
    c matches Some(d) && precision_ok::<D>(d.int_value(), precision)
}

/// What finishing a cast of converted values gives.
pub open spec fn finished_cast_outcome<D: DecimalNative>(
    a: Seq<Option<Option<D>>>,
    precision: u8,
    scale: i8,
    safe: bool,
    r: Result<Vec<Option<D>>, KernelError>,
) -> bool {
    let fails = exists|i: int|
        0 <= i < a.len() && #[trigger] a[i] is Some && !converted_ok::<D>(a[i]->Some_0, precision);
    if !safe && fails {
        r matches Err(KernelError::ConvertedValueOverflow { kind, precision: p, scale: s, index })
            && kind == D::kind() && p == precision && s == scale && 0 <= index < a.len()
            && a[index as int] is Some && !converted_ok::<D>(a[index as int]->Some_0, precision)
            && forall|j: int|
            0 <= j < index && #[trigger] a[j] is Some ==> converted_ok::<D>(a[j]->Some_0, precision)
    } else if precision_scale_issue::<D>(precision, scale) is Some {
        r == Err::<Vec<Option<D>>, KernelError>(precision_scale_error::<D>(precision, scale))
    } else {
        r matches Ok(out) && out@.len() == a.len() && forall|i: int|
            0 <= i < a.len() ==> #[trigger] out@[i] == match a[i] {
                None => None,
                Some(c) => if converted_ok::<D>(c, precision) {
                    c
                } else {
                    None
                },
            }
    }
}

/// Finishes a cast whose per-value conversion to the width `D` was done
/// elsewhere (from floating point): `converted[i]` is `None` for a null
/// input and `Some(None)` for a value that did not fit. Values with more
/// than `precision` digits fail too; the policy decides what failing means.
pub fn finish_decimal_cast<D: DecimalNative>(
    converted: &Vec<Option<Option<D>>>,
    precision: u8,
    scale: i8,
    cast_options: &CastOptions,
) -> (r: Result<Vec<Option<D>>, KernelError>)
    ensures
        finished_cast_outcome::<D>(converted@, precision, scale, cast_options.safe, r),
{
    let mut out: Vec<Option<D>> = Vec::new();
    let mut i: usize = 0;
    while i < converted.len()
        invariant
            0 <= i <= converted@.len(),
            out@.len() == i,
            forall|j: int|
                0 <= j < i ==> #[trigger] out@[j] == match converted@[j] {
                    None => None,
                    Some(c) => if converted_ok::<D>(c, precision) {
                        c
                    } else {
                        None
                    },
                },
            !cast_options.safe ==> forall|j: int|
                0 <= j < i && #[trigger] converted@[j] is Some ==> converted_ok::<D>(
                    converted@[j]->Some_0,
                    precision,
                ),
        decreases converted@.len() - i,
    {
        match converted[i] {
            None => out.push(None),
            Some(c) => {
                let ok = match c {
                    Some(d) => d.is_valid_decimal_precision(precision),
                    None => false,
                };
                if ok {
                    out.push(c);
                } else if cast_options.safe {
                    out.push(None);
                } else {
                    return Err(KernelError::ConvertedValueOverflow {
                        kind: D::decimal_kind(),
                        precision,
                        scale,
                        index: i,
                    });
                }
            },
        }
        i += 1;
    }
    match validate_decimal_precision_and_scale::<D>(precision, scale) {
        Ok(()) => Ok(out),
        Err(e) => Err(e),
    }
}

} // verus!

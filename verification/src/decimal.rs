//! Exact numerics: integers and decimals that arrive as text or as the
//! driver's fixed-point numbers become scaled integers.

use vstd::prelude::*;
use vstd::arithmetic::div_mod::{lemma_basic_div, lemma_div_denominator, lemma_small_mod};
use crate::digits::{
    capped, digits_value, is_digit, is_digits, lemma_digits_value_bound, lemma_pow10_38,
    lemma_pow10_monotonic, lemma_pow10_positive, lemma_shifted_bound, parse_digits, pow10,
    power_of_ten, POW10_38,
};
use crate::error::ExportError;

verus! {

/// The number of leading sign characters of `text`: one or none.
pub open spec fn sign_len(text: Seq<u8>) -> int {
    if text.len() > 0 && (text[0] == 45 || text[0] == 43) {
        1
    } else {
        0
    }
}

/// Whether `text` starts with a minus sign.
pub open spec fn is_negative(text: Seq<u8>) -> bool {
    text.len() > 0 && text[0] == 45
}

/// Whether `text` writes an integer: an optional sign, then one digit or
/// more.
pub open spec fn is_integer_text(text: Seq<u8>) -> bool {
    text.len() > sign_len(text) && is_digits(text.skip(sign_len(text)))
}

/// The integer that `text` writes.
pub open spec fn integer_text_value(text: Seq<u8>) -> int {
    if is_negative(text) {
        -(digits_value(text.skip(sign_len(text))) as int)
    } else {
        digits_value(text.skip(sign_len(text))) as int
    }
}

/// Whether `value` fits a 64-bit column, signed or not.
pub open spec fn fits_int64(value: int, signed: bool) -> bool {
    if signed {
        i64::MIN <= value <= i64::MAX
    } else {
        0 <= value <= u64::MAX
    }
}

/// The 64 bits a column stores for `value`: the value itself, or, for an
/// unsigned value beyond the signed range, the signed number with the same
/// bits.
pub open spec fn stored_int64(value: int) -> int {
    if value > i64::MAX {
        value - 0x1_0000_0000_0000_0000
    } else {
        value
    }
}

/// The number of sign characters at the start of `text`, and whether the
/// sign is a minus.
fn read_sign(text: &Vec<u8>) -> (sign: (usize, bool))
    ensures
        sign.0 == sign_len(text@),
        sign.1 == is_negative(text@),
{
    if text.len() > 0 && text[0] == 45 {
        (1, true)
    } else if text.len() > 0 && text[0] == 43 {
        (1, false)
    } else {
        (0, false)
    }
}

/// Parses the text of a 64-bit integer that the driver could not bind as a
/// number. Fails with `ValueOutOfRange` exactly where `text` writes no
/// integer or one outside the range of the column.
pub fn parse_int64_text(text: &Vec<u8>, signed: bool) -> (result: Result<i64, ExportError>)
    ensures
        result is Ok <==> is_integer_text(text@) && fits_int64(integer_text_value(text@), signed),
        result matches Ok(v) ==> v == stored_int64(integer_text_value(text@)),
        result matches Err(e) ==> e == ExportError::ValueOutOfRange,
{
    let (start, negative) = read_sign(text);
    if text.len() <= start {
        return Err(ExportError::ValueOutOfRange);
    }
    assert(text@.skip(start as int) =~= text@.subrange(start as int, text.len() as int));
    let magnitude = match parse_digits(text, start, text.len()) {
        Some(magnitude) => magnitude,
        None => {
            return Err(ExportError::ValueOutOfRange);
        },
    };
    if negative {
        if magnitude > 0x8000_0000_0000_0000 || !signed && magnitude != 0 {
            return Err(ExportError::ValueOutOfRange);
        }
        if magnitude == 0x8000_0000_0000_0000 {
            Ok(i64::MIN)
        } else {
            Ok(-(magnitude as i64))
        }
    } else if signed {
        if magnitude > 0x7fff_ffff_ffff_ffff {
            return Err(ExportError::ValueOutOfRange);
        }
        Ok(magnitude as i64)
    } else {
        if magnitude > 0xffff_ffff_ffff_ffff {
            return Err(ExportError::ValueOutOfRange);
        }
        if magnitude > 0x7fff_ffff_ffff_ffff {
            Ok((magnitude - 0x8000_0000_0000_0000) as i64 + i64::MIN)
        } else {
            Ok(magnitude as i64)
        }
    }
}

/// The position of the first decimal point of `body` at or after `i`, or the
/// length of `body` where there is none.
pub open spec fn point_from(body: Seq<u8>, i: int) -> int
    decreases body.len() - i,
{
    if i >= body.len() {
        body.len() as int
    } else if body[i] == 46 {
        i
    } else {
        point_from(body, i + 1)
    }
}

/// The digits of a decimal text before the point.
pub open spec fn integral_digits(text: Seq<u8>) -> Seq<u8> {
    let body = text.skip(sign_len(text));
    body.take(point_from(body, 0))
}

/// The digits of a decimal text behind the point; none where it has no
/// point.
pub open spec fn fractional_digits(text: Seq<u8>) -> Seq<u8> {
    let body = text.skip(sign_len(text));
    if point_from(body, 0) < body.len() {
        body.skip(point_from(body, 0) + 1)
    } else {
        Seq::empty()
    }
}

/// Whether `text` writes a decimal: an optional sign, digits, and at most
/// one point among them; one digit at least.
pub open spec fn is_decimal_text(text: Seq<u8>) -> bool {
    &&& is_digits(integral_digits(text))
    &&& is_digits(fractional_digits(text))
    &&& integral_digits(text).len() + fractional_digits(text).len() >= 1
}

/// The fractional digits that a column of `scale` digits keeps.
pub open spec fn kept_digits(text: Seq<u8>, scale: nat) -> Seq<u8> {
    let fraction = fractional_digits(text);
    if fraction.len() <= scale {
        fraction
    } else {
        fraction.take(scale as int)
    }
}

/// Whether `text` has a digit other than zero behind the `scale` digits
/// that the column keeps.
pub open spec fn loses_digits(text: Seq<u8>, scale: nat) -> bool {
    exists|i: int| scale <= i < fractional_digits(text).len() && fractional_digits(text)[i] != 48
}

/// The number that a decimal text writes, without its sign, counted in
/// units of ten to the `-scale`.
pub open spec fn decimal_magnitude(text: Seq<u8>, scale: nat) -> nat {
    let kept = kept_digits(text, scale);
    digits_value(integral_digits(text)) * pow10(scale) + digits_value(kept) * pow10(
        (scale - kept.len()) as nat,
    )
}

/// `magnitude` with the sign of a number that is `negative` or not.
pub open spec fn signed_value(negative: bool, magnitude: nat) -> int {
    if negative {
        -(magnitude as int)
    } else {
        magnitude as int
    }
}

/// What a decimal text becomes in a column of `precision` digits, `scale`
/// of them behind the point: the scaled integer; `ValueOutOfRange` where the
/// text writes no decimal or more digits than the column has;
/// `PrecisionLoss` where it has digits behind the point that the column
/// cannot keep.
pub open spec fn spec_parse_decimal(text: Seq<u8>, precision: nat, scale: nat) -> Result<
    int,
    ExportError,
> {
    if !is_decimal_text(text) {
        Err(ExportError::ValueOutOfRange)
    } else if loses_digits(text, scale) {
        Err(ExportError::PrecisionLoss)
    } else if decimal_magnitude(text, scale) >= pow10(precision) {
        Err(ExportError::ValueOutOfRange)
    } else {
        Ok(signed_value(is_negative(text), decimal_magnitude(text, scale)))
    }
}

/// Finds the first decimal point of `text` at or after `start`.
fn find_point(text: &Vec<u8>, start: usize) -> (point: usize)
    requires
        start <= text.len(),
    ensures
        start <= point <= text.len(),
        point - start == point_from(text@.skip(start as int), 0),
{
    let len = text.len();
    let ghost body = text@.skip(start as int);
    let mut point: usize = start;
    while point < len && text[point] != 46
        invariant
            start <= point <= len,
            len == text.len(),
            body == text@.skip(start as int),
            point_from(body, 0) == point_from(body, point - start),
        decreases len - point,
    {
        assert(body[point - start] == text@[point as int]);
        point += 1;
    }
    assert(point_from(body, 0) == point - start) by {
        if point < len {
            assert(body[point - start] == text@[point as int]);
        }
    }
    point
}

/// Looks through the digits from `from` on, which the scale cuts off:
/// `None` where a byte is no digit, else whether a digit is not zero.
fn dropped_digits(text: &Vec<u8>, from: usize) -> (lossy: Option<bool>)
    requires
        from <= text.len(),
    ensures
        lossy is Some <==> is_digits(text@.subrange(from as int, text.len() as int)),
        lossy matches Some(l) ==> l == exists|k: int|
            from <= k < text.len() && #[trigger] text@[k] != 48,
{
    let len = text.len();
    let ghost rest = text@.subrange(from as int, len as int);
    let mut lossy = false;
    let mut i: usize = from;
    while i < len
        invariant
            from <= i <= len,
            len == text.len(),
            rest == text@.subrange(from as int, len as int),
            forall|k: int| from <= k < i ==> is_digit(#[trigger] text@[k]),
            lossy <==> exists|k: int| from <= k < i && #[trigger] text@[k] != 48,
        decreases len - i,
    {
        let byte = text[i];
        if byte < 48 || byte > 57 {
            assert(!is_digit(rest[i - from]));
            return None;
        }
        if byte != 48 {
            lossy = true;
        }
        i += 1;
    }
    assert forall|k: int| 0 <= k < rest.len() implies is_digit(#[trigger] rest[k]) by {
        assert(rest[k] == text@[from + k]);
    }
    Some(lossy)
}

/// Puts the integral part and the kept fractional digits together, in units
/// of ten to the `-scale`; `None` where the sum has more digits than
/// `precision`.
fn scaled_magnitude(
    integral_value: u128,
    kept_value: u128,
    kept_len: u8,
    precision: u8,
    scale: u8,
) -> (magnitude: Option<u128>)
    requires
        1 <= precision <= 38,
        kept_len <= scale <= precision,
        kept_value < pow10(kept_len as nat),
    ensures
        magnitude is Some <==> integral_value < pow10((precision - scale) as nat),
        integral_value < pow10((precision - scale) as nat) <==> integral_value * pow10(
            scale as nat,
        ) + kept_value * pow10((scale - kept_len) as nat) < pow10(precision as nat),
        magnitude matches Some(m) ==> m == integral_value * pow10(scale as nat) + kept_value
            * pow10((scale - kept_len) as nat) && m < POW10_38,
{
    let room = power_of_ten(precision - scale);
    let shift = power_of_ten(scale);
    let fill = power_of_ten(scale - kept_len);
    proof {
        lemma_pow10_38();
        lemma_pow10_positive((scale - kept_len) as nat);
        lemma_shifted_bound(kept_value as nat, 0, kept_len as nat, (scale - kept_len) as nat);
        assert(kept_len as nat + (scale - kept_len) as nat == scale as nat);
        lemma_shifted_bound(
            integral_value as nat,
            kept_value as nat * pow10((scale - kept_len) as nat),
            (precision - scale) as nat,
            scale as nat,
        );
        assert((precision - scale) as nat + scale as nat == precision as nat);
        lemma_pow10_monotonic(precision as nat, 38);
    }
    if integral_value >= room {
        return None;
    }
    assert(integral_value * shift + kept_value * fill < POW10_38);
    assert(kept_value * fill <= integral_value * shift + kept_value * fill) by (nonlinear_arith)
        requires
            integral_value >= 0,
            shift >= 0,
    ;
    assert(integral_value * shift <= integral_value * shift + kept_value * fill)
        by (nonlinear_arith)
        requires
            kept_value >= 0,
            fill >= 0,
    ;
    Some(integral_value * shift + kept_value * fill)
}

/// Where the parts of a decimal text lie, given its sign, its point and the
/// number of fractional digits that the scale keeps.
proof fn lemma_decimal_layout(
    text: Seq<u8>,
    scale: nat,
    start: int,
    point: int,
    fraction_start: int,
    kept_len: int,
)
    requires
        start == sign_len(text),
        start <= point <= text.len(),
        point - start == point_from(text.skip(start), 0),
        fraction_start == (if point < text.len() {
            point + 1
        } else {
            text.len() as int
        }),
        kept_len == (if text.len() - fraction_start <= scale {
            text.len() - fraction_start
        } else {
            scale as int
        }),
    ensures
        integral_digits(text) == text.subrange(start, point),
        fractional_digits(text) == text.subrange(fraction_start, text.len() as int),
        kept_digits(text, scale) == text.subrange(fraction_start, fraction_start + kept_len),
        is_digits(fractional_digits(text)) <==> is_digits(kept_digits(text, scale)) && is_digits(
            text.subrange(fraction_start + kept_len, text.len() as int),
        ),
        loses_digits(text, scale) <==> exists|k: int|
            fraction_start + kept_len <= k < text.len() && #[trigger] text[k] != 48,
{
    let integral = integral_digits(text);
    let fraction = fractional_digits(text);
    let kept = kept_digits(text, scale);
    let dropped = text.subrange(fraction_start + kept_len, text.len() as int);
    assert(integral =~= text.subrange(start, point));
    assert(fraction =~= text.subrange(fraction_start, text.len() as int));
    assert(kept =~= text.subrange(fraction_start, fraction_start + kept_len));
    if is_digits(fraction) {
        assert forall|i: int| 0 <= i < kept.len() implies is_digit(#[trigger] kept[i]) by {
            assert(kept[i] == fraction[i]);
        }
        assert forall|i: int| 0 <= i < dropped.len() implies is_digit(#[trigger] dropped[i]) by {
            assert(dropped[i] == fraction[kept_len + i]);
        }
    }
    if is_digits(kept) && is_digits(dropped) {
        assert forall|i: int| 0 <= i < fraction.len() implies is_digit(#[trigger] fraction[i]) by {
            if i < kept_len {
                assert(fraction[i] == kept[i]);
            } else {
                assert(fraction[i] == dropped[i - kept_len]);
            }
        }
    }
    if exists|k: int| fraction_start + kept_len <= k < text.len() && #[trigger] text[k] != 48 {
        let k = choose|k: int| fraction_start + kept_len <= k < text.len() && #[trigger] text[k] != 48;
        assert(fraction[k - fraction_start] == text[k]);
        assert(kept_len == scale);
    }
    if loses_digits(text, scale) {
        let i = choose|i: int| scale <= i < fraction.len() && fraction[i] != 48;
        assert(text[fraction_start + i] == fraction[i]);
    }
}

/// Whether a magnitude fits the precision is decided by its integral part
/// alone, and a capped integral part never fits.
proof fn lemma_magnitude_fits(
    integral: nat,
    kept: nat,
    kept_len: nat,
    precision: nat,
    scale: nat,
)
    requires
        kept < pow10(kept_len),
        kept_len <= scale <= precision <= 38,
    ensures
        capped(integral) < pow10((precision - scale) as nat) <==> integral * pow10(scale) + kept
            * pow10((scale - kept_len) as nat) < pow10(precision),
        capped(integral) < pow10((precision - scale) as nat) ==> capped(integral) == integral,
{
    lemma_pow10_38();
    lemma_pow10_monotonic((precision - scale) as nat, 38);
    lemma_pow10_positive((scale - kept_len) as nat);
    lemma_shifted_bound(kept, 0, kept_len, (scale - kept_len) as nat);
    assert(kept_len + (scale - kept_len) as nat == scale);
    lemma_shifted_bound(
        integral,
        kept * pow10((scale - kept_len) as nat),
        (precision - scale) as nat,
        scale,
    );
    assert((precision - scale) as nat + scale == precision);
}

/// Parses the text of an exact numeric into the integer that a decimal
/// column of `precision` digits, `scale` of them behind the point, stores:
/// the number in units of ten to the `-scale`. Fails with `PrecisionLoss`
/// where the text has digits other than zero that the scale cuts off, and
/// with `ValueOutOfRange` where it writes no decimal or one with more digits
/// than the precision.
pub fn parse_decimal_text(text: &Vec<u8>, precision: u8, scale: u8) -> (result: Result<
    i128,
    ExportError,
>)
    requires
        1 <= precision <= 38,
        scale <= precision,
    ensures
        match result {
            Ok(v) => spec_parse_decimal(text@, precision as nat, scale as nat) == Ok::<
                int,
                ExportError,
            >(v as int),
            Err(e) => spec_parse_decimal(text@, precision as nat, scale as nat) == Err::<
                int,
                ExportError,
            >(e),
        },
        result matches Ok(v) ==> -pow10(precision as nat) < v < pow10(precision as nat),
{
    let (start, negative) = read_sign(text);
    let len = text.len();
    let point = find_point(text, start);
    let fraction_start: usize = if point < len {
        point + 1
    } else {
        len
    };
    let fraction_len: usize = len - fraction_start;
    let kept_len: usize = if fraction_len <= scale as usize {
        fraction_len
    } else {
        scale as usize
    };
    proof {
        lemma_decimal_layout(
            text@,
            scale as nat,
            start as int,
            point as int,
            fraction_start as int,
            kept_len as int,
        );
    }
    let integral_value = match parse_digits(text, start, point) {
        Some(value) => value,
        None => {
            return Err(ExportError::ValueOutOfRange);
        },
    };
    let kept_value = match parse_digits(text, fraction_start, fraction_start + kept_len) {
        Some(value) => value,
        None => {
            return Err(ExportError::ValueOutOfRange);
        },
    };
    let lossy = match dropped_digits(text, fraction_start + kept_len) {
        Some(lossy) => lossy,
        None => {
            return Err(ExportError::ValueOutOfRange);
        },
    };
    if (point - start) + fraction_len < 1 {
        return Err(ExportError::ValueOutOfRange);
    }
    if lossy {
        return Err(ExportError::PrecisionLoss);
    }
    proof {
        let kept = kept_digits(text@, scale as nat);
        lemma_pow10_38();
        lemma_pow10_monotonic(kept.len(), 38);
        lemma_digits_value_bound(kept);
        lemma_magnitude_fits(
            digits_value(integral_digits(text@)),
            digits_value(kept),
            kept.len(),
            precision as nat,
            scale as nat,
        );
    }
    match scaled_magnitude(integral_value, kept_value, kept_len as u8, precision, scale) {
        None => Err(ExportError::ValueOutOfRange),
        Some(magnitude) => {
            if negative {
                Ok(-(magnitude as i128))
            } else {
                Ok(magnitude as i128)
            }
        },
    }
}

/// An exact numeric as the driver binds it: sign, number of digits behind
/// the point, and the digits as one unsigned number.
#[derive(Debug, Clone, Copy, PartialEq, Eq, Structural)]
pub struct Numeric {
    pub negative: bool,
    pub scale: u8,
    pub magnitude: u128,
}

/// What the driver's number becomes in a column of `precision` digits,
/// `scale` of them behind the point: its digits moved to the column's scale.
/// Moving them up may take more digits than the column has
/// (`ValueOutOfRange`); moving them down may cut digits other than zero
/// (`PrecisionLoss`).
pub open spec fn spec_rescale(number: Numeric, precision: nat, scale: nat) -> Result<
    int,
    ExportError,
> {
    if number.scale <= scale {
        let moved = number.magnitude as nat * pow10((scale - number.scale) as nat);
        if moved >= pow10(precision) {
            Err(ExportError::ValueOutOfRange)
        } else {
            Ok(signed_value(number.negative, moved))
        }
    } else {
        let unit = pow10((number.scale - scale) as nat);
        if number.magnitude as nat % unit != 0 {
            Err(ExportError::PrecisionLoss)
        } else if number.magnitude as nat / unit >= pow10(precision) {
            Err(ExportError::ValueOutOfRange)
        } else {
            Ok(signed_value(number.negative, number.magnitude as nat / unit))
        }
    }
}

/// Converts a fixed-point number of the driver to the integer that a
/// decimal column of `precision` digits, `scale` of them behind the point,
/// stores. Fails with `PrecisionLoss` where the number has digits other than
/// zero behind the column's scale, and with `ValueOutOfRange` where it has
/// more digits than the precision.
pub fn rescale_numeric(number: Numeric, precision: u8, scale: u8) -> (result: Result<
    i128,
    ExportError,
>)
    requires
        1 <= precision <= 38,
        scale <= precision,
    ensures
        match result {
            Ok(v) => spec_rescale(number, precision as nat, scale as nat) == Ok::<
                int,
                ExportError,
            >(v as int),
            Err(e) => spec_rescale(number, precision as nat, scale as nat) == Err::<
                int,
                ExportError,
            >(e),
        },
        result matches Ok(v) ==> -pow10(precision as nat) < v < pow10(precision as nat),
{
    proof {
        lemma_pow10_38();
        lemma_pow10_monotonic(precision as nat, 38);
        lemma_pow10_positive(precision as nat);
    }
    let magnitude: u128 = if number.scale <= scale {
        let up: u8 = scale - number.scale;
        proof {
            lemma_pow10_positive(up as nat);
            lemma_shifted_bound(number.magnitude as nat, 0, (precision - up) as nat, up as nat);
            assert((precision - up) as nat + up as nat == precision as nat);
        }
        if number.magnitude >= power_of_ten(precision - up) {
            return Err(ExportError::ValueOutOfRange);
        }
        number.magnitude * power_of_ten(up)
    } else {
        let down: u8 = number.scale - scale;
        if down > 38 {
            proof {
                // The unit is beyond every 128-bit number.
                lemma_pow10_monotonic(39, down as nat);
                assert(pow10(39) == 10 * pow10(38));
                lemma_small_mod(number.magnitude as nat, pow10(down as nat));
                lemma_basic_div(number.magnitude as int, pow10(down as nat) as int);
            }
            if number.magnitude != 0 {
                return Err(ExportError::PrecisionLoss);
            }
            assert(0nat % pow10(down as nat) == 0 && 0nat / pow10(down as nat) == 0);
            0
        } else {
            let unit = power_of_ten(down);
            if number.magnitude % unit != 0 {
                return Err(ExportError::PrecisionLoss);
            }
            let moved = number.magnitude / unit;
            if moved >= power_of_ten(precision) {
                return Err(ExportError::ValueOutOfRange);
            }
            moved
        }
    };
    if number.negative {
        Ok(-(magnitude as i128))
    } else {
        Ok(magnitude as i128)
    }
}

/// 256 to the power of `k`.
pub open spec fn pow256(k: nat) -> nat
    decreases k,
{
    if k == 0 {
        1
    } else {
        256 * pow256((k - 1) as nat)
    }
}

/// The unsigned number with the bits of `value` in two's complement.
pub open spec fn twos_complement(value: i128) -> nat {
    if value < 0 {
        (value + 0x1_0000_0000_0000_0000_0000_0000_0000_0000) as nat
    } else {
        value as nat
    }
}

/// The sixteen bytes of `value` in two's complement, most significant
/// first.
pub open spec fn be_bytes(value: i128) -> Seq<u8> {
    Seq::new(16, |k: int| ((twos_complement(value) / pow256((15 - k) as nat)) % 256) as u8)
}

proof fn lemma_pow256_positive(k: nat)
    ensures
        pow256(k) >= 1,
    decreases k,
{
    if k > 0 {
        lemma_pow256_positive((k - 1) as nat);
    }
}

/// The bytes of a decimal that no integer type holds: sixteen bytes in
/// two's complement, most significant first.
pub fn decimal_to_be_bytes(value: i128) -> (bytes: Vec<u8>)
    ensures
        bytes@ == be_bytes(value),
{
    let unsigned: u128 = if value >= 0 {
        value as u128
    } else {
        ((value + i128::MAX) + 1) as u128 + 0x8000_0000_0000_0000_0000_0000_0000_0000
    };
    assert(unsigned == twos_complement(value));
    // Least significant byte first.
    let mut reversed: Vec<u8> = Vec::new();
    let mut rest: u128 = unsigned;
    let mut j: usize = 0;
    assert(pow256(0) == 1);
    while j < 16
        invariant
            j <= 16,
            reversed.len() == j,
            rest == unsigned as nat / pow256(j as nat),
            forall|k: int|
                0 <= k < j ==> reversed@[k] == ((unsigned as nat / pow256(k as nat)) % 256) as u8,
        decreases 16 - j,
    {
        proof {
            lemma_pow256_positive(j as nat);
            lemma_div_denominator(unsigned as int, pow256(j as nat) as int, 256);
            assert(pow256((j + 1) as nat) == pow256(j as nat) * 256);
        }
        reversed.push((rest % 256) as u8);
        rest = rest / 256;
        j += 1;
    }
    let mut bytes: Vec<u8> = Vec::new();
    let mut i: usize = 0;
    while i < 16
        invariant
            i <= 16,
            reversed.len() == 16,
            bytes.len() == i,
            forall|k: int| 0 <= k < i ==> bytes@[k] == reversed@[15 - k],
        decreases 16 - i,
    {
        bytes.push(reversed[15 - i]);
        i += 1;
    }
    assert(bytes@ =~= be_bytes(value));
    bytes
}

} // verus!

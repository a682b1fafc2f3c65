//! Decimal digits: powers of ten and the value of a run of digit characters.

use vstd::prelude::*;

verus! {

/// Ten to the power of `k`.
pub open spec fn pow10(k: nat) -> nat
    decreases k,
{
    if k == 0 {
        1
    } else {
        10 * pow10((k - 1) as nat)
    }
}

/// Whether `byte` is one of the characters `0` to `9`.
pub open spec fn is_digit(byte: u8) -> bool {
    48 <= byte <= 57
}

/// Whether `text` holds digits only.
pub open spec fn is_digits(text: Seq<u8>) -> bool {
    forall|i: int| 0 <= i < text.len() ==> is_digit(#[trigger] text[i])
}

/// The number that the digits of `text` write in base ten; zero for none.
pub open spec fn digits_value(text: Seq<u8>) -> nat
    decreases text.len(),
{
    if text.len() == 0 {
        0
    } else {
        (digits_value(text.drop_last()) * 10 + (text.last() - 48)) as nat
    }
}

/// The largest power of ten this crate computes with: the smallest number
/// of thirty-nine digits.
pub const POW10_38: u128 = 100_000_000_000_000_000_000_000_000_000_000_000_000;

pub proof fn lemma_pow10_positive(k: nat)
    ensures
        pow10(k) >= 1,
    decreases k,
{
    if k > 0 {
        lemma_pow10_positive((k - 1) as nat);
    }
}

/// Powers of ten grow with the exponent.
pub proof fn lemma_pow10_monotonic(a: nat, b: nat)
    requires
        a <= b,
    ensures
        pow10(a) <= pow10(b),
    decreases b,
{
    if a < b {
        lemma_pow10_monotonic(a, (b - 1) as nat);
    }
}

/// Exponents add where powers multiply.
pub proof fn lemma_pow10_adds(a: nat, b: nat)
    ensures
        pow10(a + b) == pow10(a) * pow10(b),
    decreases b,
{
    if b > 0 {
        lemma_pow10_adds(a, (b - 1) as nat);
        assert(pow10(a + b) == 10 * pow10((a + b - 1) as nat));
        assert(10 * (pow10(a) * pow10((b - 1) as nat)) == pow10(a) * (10 * pow10((b - 1) as nat)))
            by (nonlinear_arith);
    } else {
        assert(pow10(a) * 1 == pow10(a));
    }
}

/// A run of digits writes a number below ten to the power of its length.
pub proof fn lemma_digits_value_bound(text: Seq<u8>)
    requires
        is_digits(text),
    ensures
        digits_value(text) < pow10(text.len()),
    decreases text.len(),
{
    if text.len() > 0 {
        let front = text.drop_last();
        assert forall|i: int| 0 <= i < front.len() implies is_digit(#[trigger] front[i]) by {
            assert(front[i] == text[i]);
        }
        lemma_digits_value_bound(front);
        assert(is_digit(text[text.len() - 1]));
    }
}

/// A number below `10^x`, shifted by `y` digits and filled up with less
/// than `10^y`, stays below `10^(x+y)`; a number from `10^x` on does not.
pub proof fn lemma_shifted_bound(a: nat, b: nat, x: nat, y: nat)
    requires
        b < pow10(y),
    ensures
        a < pow10(x) <==> a * pow10(y) + b < pow10(x + y),
{
    lemma_pow10_adds(x, y);
    lemma_pow10_positive(y);
    let py = pow10(y) as int;
    let px = pow10(x) as int;
    if a < pow10(x) {
        assert(a * py + b < px * py) by (nonlinear_arith)
            requires
                a + 1 <= px,
                0 <= b < py,
        ;
    } else {
        assert(a * py + b >= px * py) by (nonlinear_arith)
            requires
                a >= px,
                b >= 0,
                py >= 1,
                px >= 0,
        ;
    }
}

/// The power of ten behind `POW10_38`.
pub proof fn lemma_pow10_38()
    ensures
        pow10(38) == POW10_38,
{
    reveal_with_fuel(pow10, 39);
}

/// Ten to the power of `k`, for the exponents whose power fits 128 bits.
pub fn power_of_ten(k: u8) -> (power: u128)
    requires
        k <= 38,
    ensures
        power == pow10(k as nat),
        1 <= power <= POW10_38,
{
    let mut power: u128 = 1;
    let mut i: u8 = 0;
    while i < k
        invariant
            i <= k <= 38,
            power == pow10(i as nat),
        decreases k - i,
    {
        proof {
            lemma_pow10_monotonic((i + 1) as nat, 38);
            lemma_pow10_38();
        }
        power = power * 10;
        i += 1;
    }
    proof {
        lemma_pow10_positive(k as nat);
        lemma_pow10_monotonic(k as nat, 38);
        lemma_pow10_38();
    }
    power
}

/// `value`, or `POW10_38` where it is at least that.
pub open spec fn capped(value: nat) -> nat {
    if value >= POW10_38 {
        POW10_38 as nat
    } else {
        value
    }
}

/// Reads the bytes of `text` from `start` up to `end` as a number in base
/// ten. `None` where a byte is no digit; else the number, or `POW10_38`
/// where it is at least that.
pub fn parse_digits(text: &Vec<u8>, start: usize, end: usize) -> (value: Option<u128>)
    requires
        start <= end <= text.len(),
    ensures
        value is Some <==> is_digits(text@.subrange(start as int, end as int)),
        value matches Some(v) ==> v == capped(
            digits_value(text@.subrange(start as int, end as int)),
        ),
{
    let mut acc: u128 = 0;
    let mut i: usize = start;
    assert(text@.subrange(start as int, start as int).len() == 0);
    while i < end
        invariant
            start <= i <= end <= text.len(),
            is_digits(text@.subrange(start as int, i as int)),
            acc == capped(digits_value(text@.subrange(start as int, i as int))),
        decreases end - i,
    {
        let byte = text[i];
        let ghost before = text@.subrange(start as int, i as int);
        let ghost upto = text@.subrange(start as int, i + 1);
        assert(upto.drop_last() =~= before);
        assert(upto.last() == byte);
        if byte < 48 || byte > 57 {
            assert(!is_digit(text@.subrange(start as int, end as int)[i - start]));
            return None;
        }
        let digit: u128 = (byte - 48) as u128;
        if acc >= POW10_38 / 10 {
            // At least thirty-eight digits are behind: one more reaches the cap.
            acc = POW10_38;
        } else {
            acc = acc * 10 + digit;
        }
        assert forall|k: int| 0 <= k < upto.len() implies is_digit(#[trigger] upto[k]) by {
            if k < before.len() {
                assert(upto[k] == before[k]);
            }
        }
        i += 1;
    }
    Some(acc)
}

/// The number that the two digits of `text` at `i` write.
pub open spec fn two_digits(text: Seq<u8>, i: int) -> int {
    (text[i] - 48) * 10 + (text[i + 1] - 48)
}

/// Reads the two digits of `text` at `i`; `None` where one is no digit.
pub fn read_two_digits(text: &Vec<u8>, i: usize) -> (value: Option<u16>)
    requires
        i + 2 <= text.len(),
    ensures
        value is Some <==> is_digit(text@[i as int]) && is_digit(text@[i + 1]),
        value matches Some(v) ==> v == two_digits(text@, i as int) && v < 100,
{
    let tens = text[i];
    let ones = text[i + 1];
    if tens < 48 || tens > 57 || ones < 48 || ones > 57 {
        None
    } else {
        Some((tens - 48) as u16 * 10 + (ones - 48) as u16)
    }
}

} // verus!

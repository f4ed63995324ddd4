//! Numbers as text: decimal numerals and fixed-point amounts.

use vstd::prelude::*;

verus! {

/// How many of the smallest currency unit make one coin.
pub const UNITS_PER_COIN: u64 = 100_000_000;

/// How many digits an amount shows after the decimal point.
pub const FRACTION_DIGITS: u8 = 8;

/// The character of a decimal digit.
pub open spec fn digit(value: int) -> char {
    ((value + 48) as u8) as char
}

/// The decimal numeral of `n`, without leading zeros.
pub open spec fn decimal(n: nat) -> Seq<char>
    decreases n,
{
    if n < 10 {
        seq![digit(n as int)]
    } else {
        decimal(n / 10).push(digit((n % 10) as int))
    }
}

/// The last `width` decimal digits of `n`, with zeros in front where `n`
/// has fewer.
pub open spec fn padded(n: nat, width: nat) -> Seq<char>
    decreases width,
{
    if width == 0 {
        Seq::empty()
    } else {
        padded(n / 10, (width - 1) as nat).push(digit((n % 10) as int))
    }
}

/// An amount of the smallest unit written in coins: the whole coins, a
/// point, and eight digits of fraction.
pub open spec fn amount_text(amount: nat) -> Seq<char> {
    decimal(amount / 100_000_000) + seq!['.'] + padded(amount % 100_000_000, 8)
}

/// Ten to the power of `exponent`.
pub open spec fn pow10(exponent: nat) -> nat
    decreases exponent,
{
    if exponent == 0 {
        1
    } else {
        10 * pow10((exponent - 1) as nat)
    }
}

/// The magnitude of a signed amount.
pub open spec fn magnitude(amount: int) -> nat {
    if amount < 0 {
        (-amount) as nat
    } else {
        amount as nat
    }
}

fn digit_char(value: u8) -> (c: char)
    requires
        value < 10,
    ensures
        c == digit(value as int),
{
    (value + 48) as char
}

fn push_decimal(text: &mut String, n: u64)
    ensures
        final(text)@ == old(text)@ + decimal(n as nat),
    decreases n,
{
    if n >= 10 {
        push_decimal(text, n / 10);
    }
    text.push(digit_char((n % 10) as u8));
    assert(final(text)@ =~= old(text)@ + decimal(n as nat));
}

fn push_padded(text: &mut String, n: u64, width: u8)
    ensures
        final(text)@ == old(text)@ + padded(n as nat, width as nat),
    decreases width,
{
    if width > 0 {
        push_padded(text, n / 10, width - 1);
        text.push(digit_char((n % 10) as u8));
    }
    assert(final(text)@ =~= old(text)@ + padded(n as nat, width as nat));
}

/// Writes a number as a decimal numeral.
pub fn format_decimal(n: u64) -> (text: String)
    ensures
        text@ == decimal(n as nat),
{
    let mut text = String::new();
    push_decimal(&mut text, n);
    assert(text@ =~= decimal(n as nat));
    text
}

/// Writes an amount of the smallest unit in coins, with exactly eight
/// digits after the point.
pub fn format_amount(amount: u64) -> (text: String)
    ensures
        text@ == amount_text(amount as nat),
{
    let mut text = String::new();
    push_decimal(&mut text, amount / UNITS_PER_COIN);
    text.push('.');
    push_padded(&mut text, amount % UNITS_PER_COIN, FRACTION_DIGITS);
    assert(text@ =~= amount_text(amount as nat));
    text
}

/// The magnitude of a signed amount, whatever its sign.
pub fn absolute(amount: i64) -> (size: u64)
    ensures
        size as nat == magnitude(amount as int),
{
    if amount >= 0 {
        amount as u64
    } else if amount == i64::MIN {
        9_223_372_036_854_775_808u64
    } else {
        (-amount) as u64
    }
}

/// Whether a character is one of the ten decimal digits.
pub open spec fn is_digit(c: char) -> bool {
    '0' <= c <= '9'
}

/// The value of a decimal digit.
pub open spec fn digit_value(c: char) -> nat {
    (c as u8 - 48) as nat
}

/// The number that a run of decimal digits denotes.
pub open spec fn decimal_value(digits: Seq<char>) -> nat
    decreases digits.len(),
{
    if digits.len() == 0 {
        0
    } else {
        decimal_value(digits.drop_last()) * 10 + digit_value(digits.last())
    }
}

/// The amount that a text of whole coins, a point and eight digits denotes,
/// in the smallest unit.
pub open spec fn amount_value(text: Seq<char>) -> nat {
    decimal_value(text.subrange(0, text.len() - 9)) * 100_000_000 + decimal_value(
        text.subrange(text.len() - 8, text.len() as int),
    )
}

/// A digit's character is a digit and denotes the digit.
pub proof fn lemma_digit_roundtrip(value: nat)
    requires
        value < 10,
    ensures
        is_digit(digit(value as int)),
        digit_value(digit(value as int)) == value,
{
}

/// A decimal numeral is made of digits and denotes the number it was
/// written for.
pub proof fn lemma_decimal_roundtrip(n: nat)
    ensures
        forall|i: int| 0 <= i < decimal(n).len() ==> is_digit(#[trigger] decimal(n)[i]),
        decimal_value(decimal(n)) == n,
    decreases n,
{
    lemma_digit_roundtrip(n % 10);
    let text = decimal(n);
    assert(text.last() == digit((n % 10) as int));
    if n >= 10 {
        lemma_decimal_roundtrip(n / 10);
        assert(text.drop_last() =~= decimal(n / 10));
        assert(decimal_value(text) == decimal_value(decimal(n / 10)) * 10 + n % 10);
    } else {
        assert(text.drop_last() =~= Seq::<char>::empty());
        assert(decimal_value(text.drop_last()) == 0);
        assert(decimal_value(text) == 0 * 10 + n);
    }
}

/// A padded numeral is made of digits and denotes the number it was
/// written for, where the number has no more digits than the width.
pub proof fn lemma_padded_roundtrip(n: nat, width: nat)
    ensures
        forall|i: int| 0 <= i < padded(n, width).len() ==> is_digit(#[trigger] padded(n, width)[i]),
        n < pow10(width) ==> decimal_value(padded(n, width)) == n,
    decreases width,
{
    let text = padded(n, width);
    if width > 0 {
        lemma_digit_roundtrip(n % 10);
        lemma_padded_roundtrip(n / 10, (width - 1) as nat);
        assert(text.last() == digit((n % 10) as int));
        assert(text.drop_last() =~= padded(n / 10, (width - 1) as nat));
        assert(decimal_value(text) == decimal_value(padded(n / 10, (width - 1) as nat)) * 10 + n
            % 10);
    } else {
        assert(decimal_value(text) == 0);
    }
}

/// The text of an amount denotes the amount: nothing is lost or rounded in
/// writing it, so two amounts are written alike only where they are equal.
pub proof fn lemma_amount_roundtrip(amount: nat)
    ensures
        amount_value(amount_text(amount)) == amount,
        forall|i: int|
            0 <= i < amount_text(amount).len() && i != amount_text(amount).len() - 9 ==> is_digit(
                #[trigger] amount_text(amount)[i],
            ),
{
    let whole = decimal(amount / 100_000_000);
    let fraction = padded(amount % 100_000_000, 8);
    let text = amount_text(amount);
    lemma_padded_len(amount % 100_000_000, 8);
    lemma_decimal_roundtrip(amount / 100_000_000);
    lemma_padded_roundtrip(amount % 100_000_000, 8);
    assert(pow10(8) == 100_000_000) by {
        reveal_with_fuel(pow10, 9);
    }
    assert(text.subrange(0, text.len() - 9) =~= whole);
    assert(text.subrange(text.len() - 8, text.len() as int) =~= fraction);
    assert forall|i: int| 0 <= i < text.len() && i != text.len() - 9 implies is_digit(
        #[trigger] text[i],
    ) by {
        if i < whole.len() {
            assert(text[i] == whole[i]);
        } else {
            assert(text[i] == fraction[i - whole.len() - 1]);
        }
    }
}

/// Two amounts that are written alike are equal.
pub proof fn lemma_amount_text_injective(first: nat, second: nat)
    requires
        amount_text(first) == amount_text(second),
    ensures
        first == second,
{
    lemma_amount_roundtrip(first);
    lemma_amount_roundtrip(second);
}

/// A decimal numeral has at least one character.
pub proof fn lemma_decimal_nonempty(n: nat)
    ensures
        decimal(n).len() >= 1,
    decreases n,
{
    if n >= 10 {
        lemma_decimal_nonempty(n / 10);
    }
}

/// A padded numeral has exactly the asked number of characters.
pub proof fn lemma_padded_len(n: nat, width: nat)
    ensures
        padded(n, width).len() == width,
    decreases width,
{
    if width > 0 {
        lemma_padded_len(n / 10, (width - 1) as nat);
    }
}

/// An amount is written with at least one digit, a point in the ninth
/// place from the end, and eight digits after it.
pub proof fn lemma_amount_text_shape(amount: nat)
    ensures
        amount_text(amount).len() >= 10,
        amount_text(amount)[amount_text(amount).len() - 9] == '.',
{
    lemma_decimal_nonempty(amount / 100_000_000);
    lemma_padded_len(amount % 100_000_000, 8);
}

} // verus!

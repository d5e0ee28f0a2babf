//! Decimal text of unsigned numbers.

use vstd::prelude::*;
use vstd::string::*;

verus! {

/// The character that stands for `digit`, which is below ten.
pub open spec fn digit_char(digit: nat) -> char {
    (48 + digit) as u32 as char
}

/// The decimal text of `n`, without leading zeros.
pub open spec fn decimal(n: nat) -> Seq<char>
    decreases n,
{
    if n < 10 {
        seq![digit_char(n)]
    } else {
        decimal(n / 10).push(digit_char(n % 10))
    }
}

/// Whether `c` is one of the ten ASCII digits.
pub open spec fn is_digit(c: char) -> bool {
    '0' <= c <= '9'
}

/// Whether `text` holds ASCII digits only.
pub open spec fn all_digits(text: Seq<char>) -> bool {
    forall|i: int| 0 <= i < text.len() ==> is_digit(#[trigger] text[i])
}

/// The number that a run of ASCII digits writes down.
pub open spec fn digits_value(digits: Seq<char>) -> nat
    decreases digits.len(),
{
    if digits.len() == 0 {
        0
    } else {
        10 * digits_value(digits.drop_last()) + (digits.last() as nat - 48) as nat
    }
}

/// What is left of `text` once one leading plus sign is taken off.
pub open spec fn without_plus(text: Seq<char>) -> Seq<char> {
    if text.len() > 0 && text[0] == '+' {
        text.skip(1)
    } else {
        text
    }
}

/// The number that `text` writes down: an optional plus sign and at least one
/// digit, nothing else, with a value that fits in 64 bits.
pub open spec fn parsed(text: Seq<char>) -> Option<u64> {
    let digits = without_plus(text);
    if digits.len() > 0 && all_digits(digits) && digits_value(digits) <= u64::MAX {
        Some(digits_value(digits) as u64)
    } else {
        None
    }
}

proof fn lemma_digits_value_push(digits: Seq<char>, c: char)
    ensures
        digits_value(digits.push(c)) == 10 * digits_value(digits) + (c as nat - 48) as nat,
{
    assert(digits.push(c).drop_last() =~= digits);
}

/// Cutting digits off the end never makes the number larger.
proof fn lemma_digits_value_prefix(digits: Seq<char>, n: int)
    requires
        0 <= n <= digits.len(),
    ensures
        digits_value(digits.take(n)) <= digits_value(digits),
    decreases digits.len(),
{
    if n < digits.len() {
        lemma_digits_value_prefix(digits.drop_last(), n);
        assert(digits.drop_last().take(n) =~= digits.take(n));
    } else {
        assert(digits.take(n) =~= digits);
    }
}

/// The decimal text of a number is a non-empty run of digits with that value.
proof fn lemma_decimal_digits(n: nat)
    ensures
        decimal(n).len() > 0,
        all_digits(decimal(n)),
        digits_value(decimal(n)) == n,
    decreases n,
{
    if n < 10 {
        reveal_with_fuel(digits_value, 2);
        assert(decimal(n).drop_last().len() == 0);
    } else {
        lemma_decimal_digits(n / 10);
        lemma_digits_value_push(decimal(n / 10), digit_char(n % 10));
    }
}

/// Reading back the decimal text of a number gives that number.
pub proof fn law_decimal_reads_back(n: u64)
    ensures
        parsed(decimal(n as nat)) == Some(n),
{
    lemma_decimal_digits(n as nat);
    let text = decimal(n as nat);
    assert(is_digit(text[0]));
    assert(without_plus(text) == text);
}

fn digit_text(digit: u64) -> (text: &'static str)
    requires
        digit < 10,
    ensures
        text@ == seq![digit_char(digit as nat)],
{
    proof {
        reveal_strlit("0");
        reveal_strlit("1");
        reveal_strlit("2");
        reveal_strlit("3");
        reveal_strlit("4");
        reveal_strlit("5");
        reveal_strlit("6");
        reveal_strlit("7");
        reveal_strlit("8");
        reveal_strlit("9");
    }
    if digit == 0 {
        "0"
    } else if digit == 1 {
        "1"
    } else if digit == 2 {
        "2"
    } else if digit == 3 {
        "3"
    } else if digit == 4 {
        "4"
    } else if digit == 5 {
        "5"
    } else if digit == 6 {
        "6"
    } else if digit == 7 {
        "7"
    } else if digit == 8 {
        "8"
    } else {
        "9"
    }
}

/// Writes `n` in decimal.
pub fn to_decimal(n: u64) -> (text: String)
    ensures
        text@ == decimal(n as nat),
    decreases n,
{
    let mut text: String = if n < 10 {
        String::new()
    } else {
        to_decimal(n / 10)
    };
    text.append(digit_text(n % 10));
    text
}

/// Reads a decimal number: an optional plus sign, then digits only.
pub fn parse_decimal(text: &str) -> (number: Option<u64>)
    ensures
        number == parsed(text@),
{
    let mut value: u64 = 0;
    let mut seen_digit: bool = false;
    let mut first: bool = true;
    for c in it: text.chars()
        invariant
            it.seq() == text@,
            first == (it.index() == 0),
            seen_digit == (without_plus(text@.take(it.index() as int)).len() > 0),
            all_digits(without_plus(text@.take(it.index() as int))),
            value == digits_value(without_plus(text@.take(it.index() as int))),
    {
        let ghost before = text@.take(it.index() as int);
        let ghost after = text@.take(it.index() as int + 1);
        assert(after =~= before.push(c));
        if first && c == '+' {
            assert(without_plus(after) =~= Seq::<char>::empty());
        } else {
            assert(without_plus(after) =~= without_plus(before).push(c));
            proof {
                lemma_digits_value_push(without_plus(before), c);
                lemma_digits_value_prefix(without_plus(text@), without_plus(after).len() as int);
                assert(without_plus(text@).take(without_plus(after).len() as int) =~= without_plus(
                    after,
                ));
            }
            if c < '0' || c > '9' {
                assert(!is_digit(without_plus(text@)[without_plus(before).len() as int]));
                return None;
            }
            let digit: u64 = c as u64 - 48;
            if value > (u64::MAX - digit) / 10 {
                return None;
            }
            value = value * 10 + digit;
            seen_digit = true;
        }
        first = false;
    }
    assert(text@.take(text@.len() as int) =~= text@);
    if seen_digit {
        Some(value)
    } else {
        None
    }
}

/// Numbers are read digit by digit: one digit is its value, a further digit makes ten
/// times the number plus its value, and a number beyond 64 bits is none.
pub proof fn law_reading_digit_by_digit(text: Seq<char>, c: char)
    requires
        text.len() > 0,
        forall|i: int| 0 <= i < text.len() ==> '0' <= #[trigger] text[i] <= '9',
        '0' <= c <= '9',
    ensures
        parsed(seq![c]) == Some((c as u64 - '0' as u64) as u64),
        parsed(text.push(c)) is Some <==> parsed(text) is Some && 10 * parsed(text)->0 + (c as u64
            - '0' as u64) <= u64::MAX,
        parsed(text.push(c)) is Some ==> parsed(text.push(c))->0 == 10 * parsed(text)->0 + (
        c as u64 - '0' as u64),
{
    let longer = text.push(c);
    reveal_with_fuel(digits_value, 2);
    assert(seq![c].drop_last().len() == 0);
    assert(is_digit(seq![c][0]));
    assert(without_plus(seq![c]) == seq![c]);
    assert(longer[0] == text[0]);
    assert(without_plus(text) == text);
    assert(without_plus(longer) == longer);
    assert(all_digits(text));
    assert(all_digits(longer));
    lemma_digits_value_push(text, c);
}

/// One plus sign may stand before the digits, and changes nothing.
pub proof fn law_plus_sign_is_passed_over(text: Seq<char>)
    requires
        text.len() > 0 ==> text[0] != '+',
    ensures
        parsed(seq!['+'] + text) == parsed(text),
{
    assert((seq!['+'] + text).skip(1) =~= text);
}

/// A text without digits, or with anything else than digits behind an optional plus
/// sign, is no number.
pub proof fn law_other_texts_are_no_numbers(text: Seq<char>, i: int)
    requires
        0 <= i <= text.len(),
        i < text.len() ==> !('0' <= text[i] <= '9') && !(i == 0 && text[0] == '+'),
        i == text.len() ==> i == 0 || text == seq!['+'],
    ensures
        parsed(text) is None,
{
    let digits = without_plus(text);
    if i < text.len() {
        if text[0] == '+' {
            assert(digits[i - 1] == text[i]);
            assert(!is_digit(digits[i - 1]));
        } else {
            assert(!is_digit(digits[i]));
        }
    }
}

/// Numbers are written with digits only, and without a leading zero but for zero
/// itself.
pub proof fn law_decimal_text_is_canonical(n: nat)
    ensures
        decimal(n).len() > 0,
        forall|i: int| 0 <= i < decimal(n).len() ==> '0' <= #[trigger] decimal(n)[i] <= '9',
        decimal(n)[0] == '0' ==> n == 0 && decimal(n).len() == 1,
    decreases n,
{
    if n >= 10 {
        law_decimal_text_is_canonical(n / 10);
        assert(decimal(n)[0] == decimal(n / 10)[0]);
    }
}

} // verus!

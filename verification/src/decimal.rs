//! Whole numbers in decimal notation.
use vstd::prelude::*;

verus! {

/// Whether a character is one of the ten digits.
pub open spec fn is_digit(c: char) -> bool {
    '0' <= c <= '9'
}

/// Whether a text holds nothing but digits.
pub open spec fn all_digits(text: Seq<char>) -> bool {
    forall|i: int| 0 <= i < text.len() ==> is_digit(#[trigger] text[i])
}

/// The number that a row of digits stands for.
pub open spec fn digits_value(digits: Seq<char>) -> int
    decreases digits.len(),
{
    if digits.len() == 0 {
        0
    } else {
        10 * digits_value(digits.drop_last()) + (digits.last() as int - '0' as int)
    }
}

/// A text without the plus sign that it may start with.
pub open spec fn without_plus(text: Seq<char>) -> Seq<char> {
    if text.len() > 0 && text[0] == '+' {
        text.skip(1)
    } else {
        text
    }
}

/// The number that a text stands for: digits, at least one, with or without a plus
/// sign before them, whose value a `u64` can hold. Any other text stands for none.
pub open spec fn parsed_u64(text: Seq<char>) -> Option<u64> {
    let digits = without_plus(text);
    if digits.len() > 0 && all_digits(digits) && digits_value(digits) <= u64::MAX {
        Some(digits_value(digits) as u64)
    } else {
        None
    }
}

/// More digits never make a smaller number.
proof fn lemma_digits_value_grows(digits: Seq<char>, n: int)
    requires
        all_digits(digits),
        0 <= n <= digits.len(),
    ensures
        0 <= digits_value(digits.take(n)) <= digits_value(digits),
    decreases digits.len(),
{
    if digits.len() == 0 {
        assert(digits.take(n) =~= digits);
    } else {
        let init = digits.drop_last();
        assert(forall|i: int| 0 <= i < init.len() ==> init[i] == digits[i]);
        assert(is_digit(digits[digits.len() - 1]));
        if n == digits.len() {
            assert(digits.take(n) =~= digits);
            lemma_digits_value_grows(init, init.len() as int);
        } else {
            lemma_digits_value_grows(init, n);
            assert(digits.take(n) =~= init.take(n));
        }
    }
}

/// Reads a whole number, `None` where the text is not one that a `u64` can hold.
pub fn parse_u64(text: &str) -> (number: Option<u64>)
    ensures
        number == parsed_u64(text@),
{
    let ghost digits = without_plus(text@);
    let ghost skipped: int = text@.len() - digits.len();
    let mut value: u64 = 0;
    let mut first = true;
    let mut empty = true;
    for c in it: text.chars()
        invariant
            it.seq() == text@,
            digits == without_plus(text@),
            skipped == text@.len() - digits.len(),
            first == (it.index() == 0),
            empty == (it.index() <= skipped),
            it.index() > skipped ==> {
                &&& all_digits(digits.take(it.index() - skipped))
                &&& value == digits_value(digits.take(it.index() - skipped))
            },
            it.index() <= skipped ==> value == 0,
    {
        let ghost n = it.index() - skipped;
        if first && c == '+' {
            first = false;
        } else {
            assert(n >= 0);
            assert(digits[n] == c);
            assert(digits.take(n + 1).drop_last() =~= digits.take(n));
            first = false;
            if c < '0' || c > '9' {
                return None;
            }
            empty = false;
            let d = c as u64 - '0' as u64;
            value = match value.checked_mul(10) {
                Some(tens) => match tens.checked_add(d) {
                    Some(sum) => sum,
                    None => {
                        proof {
                            if all_digits(digits) {
                                lemma_digits_value_grows(digits, n + 1);
                            }
                        }
                        return None;
                    },
                },
                None => {
                    proof {
                        if all_digits(digits) {
                            lemma_digits_value_grows(digits, n + 1);
                        }
                    }
                    return None;
                },
            };
        }
    }
    assert(digits.take(digits.len() as int) =~= digits);
    if empty {
        None
    } else {
        Some(value)
    }
}

/// The digit that stands for a number below ten.
pub open spec fn digit_char(d: int) -> char {
    ('0' as int + d) as char
}

/// A number in digits, without leading zeros.
pub open spec fn decimal(n: nat) -> Seq<char>
    decreases n,
{
    if n < 10 {
        seq![digit_char(n as int)]
    } else {
        decimal(n / 10).push(digit_char((n % 10) as int))
    }
}

/// A number in digits, with a minus sign before them where it is negative.
pub open spec fn signed_decimal(i: int) -> Seq<char> {
    if i < 0 {
        seq!['-'] + decimal((-i) as nat)
    } else {
        decimal(i as nat)
    }
}

/// Writes a number below ten.
fn digit_str(d: u8) -> (text: &'static str)
    requires
        d < 10,
    ensures
        text@ == seq![digit_char(d as int)],
{
    proof {
        reveal_strlit("0");
        reveal_strlit("1");
        reveal_strlit("2");
        reveal_strlit("3");
        reveal_strlit("4");
        reveal_strlit("5");
        reveal_strlit("6");
        reveal_strlit("7");
        reveal_strlit("8");
        reveal_strlit("9");
    }
    match d {
        0 => "0",
        1 => "1",
        2 => "2",
        3 => "3",
        4 => "4",
        5 => "5",
        6 => "6",
        7 => "7",
        8 => "8",
        _ => "9",
    }
}

/// Writes a number that is not negative.
pub fn u128_to_string(n: u128) -> (text: String)
    ensures
        text@ == decimal(n as nat),
    decreases n,
{
    if n < 10 {
        digit_str(n as u8).to_string()
    } else {
        let mut text = u128_to_string(n / 10);
        text.append(digit_str((n % 10) as u8));
        assert(text@ =~= decimal(n as nat));
        text
    }
}

/// Writes a number.
pub fn i128_to_string(i: i128) -> (text: String)
    ensures
        text@ == signed_decimal(i as int),
{
    if i < 0 {
        proof {
            reveal_strlit("-");
        }
        let magnitude: u128 = (-(i + 1)) as u128 + 1;
        let mut text = "-".to_string();
        text.append(u128_to_string(magnitude).as_str());
        assert(text@ =~= signed_decimal(i as int));
        text
    } else {
        u128_to_string(i as u128)
    }
}

/// A number in digits consists of digits, at least one, whose value is the number.
pub proof fn lemma_decimal_value(n: nat)
    ensures
        decimal(n).len() > 0,
        all_digits(decimal(n)),
        digits_value(decimal(n)) == n,
    decreases n,
{
    if n < 10 {
        let digits = seq![digit_char(n as int)];
        assert(digits.drop_last() =~= Seq::<char>::empty());
        assert(digits_value(Seq::<char>::empty()) == 0);
        assert(digits.last() == digit_char(n as int));
    } else {
        lemma_decimal_value(n / 10);
        assert(decimal(n).drop_last() =~= decimal(n / 10));
    }
}

/// Reading a number that was written gives it back.
pub proof fn law_numbers_read_back(n: u64)
    ensures
        parsed_u64(decimal(n as nat)) == Some(n),
{
    lemma_decimal_value(n as nat);
}

/// Two numbers are never written alike.
pub proof fn law_numbers_are_told_apart(i: int, j: int)
    requires
        signed_decimal(i) == signed_decimal(j),
    ensures
        i == j,
{
    lemma_decimal_value(if i < 0 { (-i) as nat } else { i as nat });
    lemma_decimal_value(if j < 0 { (-j) as nat } else { j as nat });
    let text = signed_decimal(i);
    if i < 0 {
        assert(text[0] == '-');
        assert(text.skip(1) =~= decimal((-i) as nat));
    } else {
        assert(is_digit(text[0]));
    }
    if j < 0 {
        assert(text[0] == '-');
        assert(text.skip(1) =~= decimal((-j) as nat));
    } else {
        assert(is_digit(text[0]));
    }
}

/// A text without digits is no number, and a text of one character is one exactly where
/// the character is a digit: the number that the digit stands for.
pub proof fn law_one_character(c: char)
    ensures
        parsed_u64(Seq::<char>::empty()) is None,
        '0' <= c <= '9' ==> parsed_u64(seq![c]) == Some((c as int - '0' as int) as u64),
        !('0' <= c <= '9') ==> parsed_u64(seq![c]) is None,
{
    let one = seq![c];
    assert(one.drop_last() =~= Seq::<char>::empty());
    assert(digits_value(Seq::<char>::empty()) == 0);
    if c == '+' {
        assert(without_plus(one).len() == 0);
    } else {
        assert(without_plus(one) == one);
        assert(digits_value(one) == c as int - '0' as int);
        if !('0' <= c <= '9') {
            assert(!is_digit(one[0]));
        }
    }
}

/// A digit behind a number makes it ten times as large and adds the digit, as long as a
/// `u64` can hold that. Anything else behind a number makes it none.
pub proof fn law_one_more_character(text: Seq<char>, number: u64, c: char)
    requires
        parsed_u64(text) == Some(number),
    ensures
        '0' <= c <= '9' && 10 * number + (c as int - '0' as int) <= u64::MAX ==> parsed_u64(
            text.push(c),
        ) == Some((10 * number + (c as int - '0' as int)) as u64),
        '0' <= c <= '9' && 10 * number + (c as int - '0' as int) > u64::MAX ==> parsed_u64(
            text.push(c),
        ) is None,
        !('0' <= c <= '9') ==> parsed_u64(text.push(c)) is None,
{
    let digits = without_plus(text);
    let longer = without_plus(text.push(c));
    lemma_digits_value_grows(digits, 0);
    assert(longer =~= digits.push(c));
    assert(longer.drop_last() =~= digits);
    assert(longer.last() == c);
    assert forall|i: int| 0 <= i < digits.len() implies is_digit(#[trigger] longer[i]) by {
        assert(is_digit(digits[i]));
    }
    if !('0' <= c <= '9') {
        assert(!is_digit(longer[digits.len() as int]));
    }
}

/// A text that is no number does not become one by more characters, unless it was empty
/// or a plus sign alone.
pub proof fn law_refused_texts_stay_refused(text: Seq<char>, c: char)
    requires
        parsed_u64(text) is None,
        text.len() > 0,
        text != seq!['+'],
    ensures
        parsed_u64(text.push(c)) is None,
{
    let digits = without_plus(text);
    let longer = without_plus(text.push(c));
    assert(longer =~= digits.push(c));
    if digits.len() == 0 {
        assert(text =~= seq!['+']);
    }
    if all_digits(longer) {
        assert forall|i: int| 0 <= i < digits.len() implies is_digit(#[trigger] digits[i]) by {
            assert(is_digit(longer[i]));
        }
        lemma_digits_value_grows(longer, digits.len() as int);
        assert(longer.take(digits.len() as int) =~= digits);
    }
}

/// A plus sign before a text without one makes no difference.
pub proof fn law_plus_sign_makes_no_difference(text: Seq<char>)
    requires
        text.len() > 0 ==> text[0] != '+',
    ensures
        parsed_u64(seq!['+'] + text) == parsed_u64(text),
{
    assert((seq!['+'] + text).skip(1) =~= text);
}

/// A number below ten is written as its digit; a larger one as its tenth, followed by the
/// digit for the rest.
pub proof fn law_digits_are_written_in_order(n: nat, d: nat)
    requires
        d < 10,
    ensures
        decimal(d) == seq![('0' as int + d) as char],
        n > 0 ==> decimal(10 * n + d) == decimal(n).push(('0' as int + d) as char),
{
    if n > 0 {
        assert((10 * n + d) / 10 == n);
        assert((10 * n + d) % 10 == d);
    }
}

/// A number that is not negative is written without a sign, its negative with a minus
/// sign before the same digits.
pub proof fn law_negative_numbers_have_a_minus_sign(i: int)
    ensures
        i >= 0 ==> signed_decimal(i) == decimal(i as nat),
        i > 0 ==> signed_decimal(-i) == seq!['-'] + signed_decimal(i),
{
}

} // verus!

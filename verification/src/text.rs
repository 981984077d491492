//! Building the texts that the library hands to its user.

use vstd::prelude::*;
use vstd::std_specs::iter::IteratorSpec;
use vstd::string::StringExecFns;

verus! {

/// The character of a decimal digit.
pub open spec fn digit_char(digit: int) -> char {
    if digit == 0 {
        '0'
    } else if digit == 1 {
        '1'
    } else if digit == 2 {
        '2'
    } else if digit == 3 {
        '3'
    } else if digit == 4 {
        '4'
    } else if digit == 5 {
        '5'
    } else if digit == 6 {
        '6'
    } else if digit == 7 {
        '7'
    } else if digit == 8 {
        '8'
    } else {
        '9'
    }
}

/// The decimal numeral of a number, without leading zeros.
pub open spec fn decimal(n: nat) -> Seq<char>
    decreases n,
{
    if n < 10 {
        seq![digit_char(n as int)]
    } else {
        decimal(n / 10).push(digit_char((n % 10) as int))
    }
}

/// A run of `count` spaces.
pub open spec fn spaces(count: nat) -> Seq<char> {
    Seq::new(count, |i: int| ' ')
}

/// The decimal numeral of a number, with spaces before it up to `width` characters.
pub open spec fn right_aligned(n: nat, width: nat) -> Seq<char> {
    if decimal(n).len() < width {
        spaces((width - decimal(n).len()) as nat) + decimal(n)
    } else {
        decimal(n)
    }
}

/// A numeral has at least one digit.
pub proof fn lemma_decimal_len(n: nat)
    ensures
        decimal(n).len() >= 1,
        n < 10 ==> decimal(n).len() == 1,
        n >= 10 ==> decimal(n).len() == decimal(n / 10).len() + 1,
    decreases n,
{
    if n >= 10 {
        lemma_decimal_len(n / 10);
    }
}

/// The text of one decimal digit.
fn digit_str(digit: u64) -> (text: &'static str)
    requires
        digit < 10,
    ensures
        text@ == seq![digit_char(digit as int)],
{
    proof {
        reveal_strlit("0");
        reveal_strlit("1");
        reveal_strlit("2");
        reveal_strlit("3");
        reveal_strlit("4");
        reveal_strlit("5");
        reveal_strlit("6");
        reveal_strlit("7");
        reveal_strlit("8");
        reveal_strlit("9");
    }
    let text = if digit == 0 {
        "0"
    } else if digit == 1 {
        "1"
    } else if digit == 2 {
        "2"
    } else if digit == 3 {
        "3"
    } else if digit == 4 {
        "4"
    } else if digit == 5 {
        "5"
    } else if digit == 6 {
        "6"
    } else if digit == 7 {
        "7"
    } else if digit == 8 {
        "8"
    } else {
        "9"
    };
    text
}

/// Appends the decimal numeral of `n` to `text`.
pub fn append_decimal(text: &mut String, n: u64)
    ensures
        final(text)@ == old(text)@ + decimal(n as nat),
    decreases n,
{
    if n >= 10 {
        append_decimal(text, n / 10);
    }
    text.append(digit_str(n % 10));
}

/// The number of digits of the decimal numeral of `n`.
pub fn decimal_len(n: u64) -> (len: u64)
    ensures
        len == decimal(n as nat).len(),
{
    let mut len: u64 = 1;
    let mut rest: u64 = n;
    while rest >= 10
        invariant
            1 <= len,
            len + rest <= n + 1,
            decimal(n as nat).len() == decimal(rest as nat).len() + len - 1,
        decreases rest,
    {
        proof {
            lemma_decimal_len(rest as nat);
        }
        rest = rest / 10;
        len += 1;
    }
    proof {
        lemma_decimal_len(rest as nat);
    }
    len
}

/// Appends `count` spaces to `text`.
pub fn append_spaces(text: &mut String, count: usize)
    ensures
        final(text)@ == old(text)@ + spaces(count as nat),
{
    proof {
        reveal_strlit(" ");
    }
    let mut i: usize = 0;
    while i < count
        invariant
            i <= count,
            text@ == old(text)@ + spaces(i as nat),
            " "@ == seq![' '],
        decreases count - i,
    {
        text.append(" ");
        i += 1;
    }
}

/// Appends the decimal numeral of `n` to `text`, with spaces before it up to `width`
/// characters.
pub fn append_right_aligned(text: &mut String, n: u64, width: usize)
    ensures
        final(text)@ == old(text)@ + right_aligned(n as nat, width as nat),
{
    let len = decimal_len(n);
    if len < width as u64 {
        append_spaces(text, (width as u64 - len) as usize);
    }
    append_decimal(text, n);
}

/// The value of a decimal digit, if the character is one.
pub open spec fn digit_of(c: char) -> Option<nat> {
    if c == '0' {
        Some(0)
    } else if c == '1' {
        Some(1)
    } else if c == '2' {
        Some(2)
    } else if c == '3' {
        Some(3)
    } else if c == '4' {
        Some(4)
    } else if c == '5' {
        Some(5)
    } else if c == '6' {
        Some(6)
    } else if c == '7' {
        Some(7)
    } else if c == '8' {
        Some(8)
    } else if c == '9' {
        Some(9)
    } else {
        None
    }
}

/// Whether the character is a decimal digit.
pub open spec fn is_digit(c: char) -> bool {
    digit_of(c) is Some
}

/// The value of a decimal digit, if the character is one.
fn digit_value(c: char) -> (digit: Option<u64>)
    ensures
        match digit {
            Some(d) => digit_of(c) == Some(d as nat) && d <= 9,
            None => digit_of(c) is None,
        },
{
    if c == '0' {
        Some(0)
    } else if c == '1' {
        Some(1)
    } else if c == '2' {
        Some(2)
    } else if c == '3' {
        Some(3)
    } else if c == '4' {
        Some(4)
    } else if c == '5' {
        Some(5)
    } else if c == '6' {
        Some(6)
    } else if c == '7' {
        Some(7)
    } else if c == '8' {
        Some(8)
    } else if c == '9' {
        Some(9)
    } else {
        None
    }
}

/// Whether every character is a decimal digit.
pub open spec fn all_digits(text: Seq<char>) -> bool {
    forall|i: int| 0 <= i < text.len() ==> is_digit(#[trigger] text[i])
}

/// The number that decimal digits spell.
pub open spec fn numeral_value(digits: Seq<char>) -> nat
    decreases digits.len(),
{
    if digits.len() == 0 {
        0
    } else {
        numeral_value(digits.drop_last()) * 10 + match digit_of(digits.last()) {
            Some(d) => d,
            None => 0,
        }
    }
}

/// The text without a leading plus sign, if it has one.
pub open spec fn without_plus(text: Seq<char>) -> Seq<char> {
    if text.len() > 0 && text[0] == '+' {
        text.drop_first()
    } else {
        text
    }
}

/// The number that a text spells, if it is a decimal numeral of at most 32 bits: one or
/// more digits, which a plus sign may precede.
pub open spec fn parsed_u32(text: Seq<char>) -> Option<u32> {
    let digits = without_plus(text);
    if digits.len() > 0 && all_digits(digits) && numeral_value(digits) <= u32::MAX {
        Some(numeral_value(digits) as u32)
    } else {
        None
    }
}

/// Reads a decimal numeral of at most 32 bits.
pub fn parse_u32(text: &str) -> (r: Option<u32>)
    ensures
        r == parsed_u32(text@),
{
    broadcast use vstd::string::group_string_axioms;

    let ghost start: int = if text@.len() > 0 && text@[0] == '+' {
        1
    } else {
        0
    };
    let mut valid = true;
    let mut overflow = false;
    let mut acc: u64 = 0;
    let mut any = false;
    let mut first = true;
    for c in it: text.chars()
        invariant
            it.seq() == text@,
            start == if text@.len() > 0 && text@[0] == '+' {
                1int
            } else {
                0int
            },
            first <==> it.index() == 0,
            any <==> it.index() > start,
            acc <= u32::MAX,
            it.index() >= start ==> (valid <==> all_digits(text@.subrange(start, it.index() as int))),
            it.index() < start ==> valid,
            it.index() >= start && valid ==> (overflow <==> numeral_value(
                text@.subrange(start, it.index() as int),
            ) > u32::MAX),
            it.index() >= start && valid && !overflow ==> acc == numeral_value(
                text@.subrange(start, it.index() as int),
            ),
            it.index() < start ==> acc == 0 && !overflow,
    {
        let ghost i = it.index() as int;
        if !(first && c == '+') {
            let ghost seen = text@.subrange(start, i);
            let ghost grown = text@.subrange(start, i + 1);
            assert(grown.drop_last() =~= seen);
            assert(grown.last() == c);
            assert(all_digits(grown) <==> all_digits(seen) && is_digit(c)) by {
                if all_digits(seen) && is_digit(c) {
                    assert forall|k: int| 0 <= k < grown.len() implies is_digit(#[trigger] grown[k]) by {}
                }
                if all_digits(grown) {
                    assert forall|k: int| 0 <= k < seen.len() implies is_digit(#[trigger] seen[k]) by {}
                }
            }
            match digit_value(c) {
                Some(digit) => {
                    if !overflow {
                        let next = acc * 10 + digit;
                        if next > u32::MAX as u64 {
                            overflow = true;
                        } else {
                            acc = next;
                        }
                    }
                },
                None => {
                    valid = false;
                },
            }
            any = true;
        }
        first = false;
    }
    assert(text@.subrange(start, text@.len() as int) =~= without_plus(text@));
    if valid && !overflow && any {
        Some(acc as u32)
    } else {
        None
    }
}

} // verus!

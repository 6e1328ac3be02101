//! Reading hexadecimal numbers and writing decimal ones.

use vstd::prelude::*;
use vstd::string::*;

use crate::text::characters;

verus! {

/// Whether `c` is a hexadecimal digit, in either case.
pub open spec fn is_hex(c: char) -> bool {
    '0' <= c <= '9' || 'a' <= c <= 'f' || 'A' <= c <= 'F'
}

/// What the hexadecimal digit `c` stands for.
pub open spec fn hex_digit(c: char) -> int {
    if c <= '9' {
        c as int - '0' as int
    } else if c <= 'F' {
        c as int - 'A' as int + 10
    } else {
        c as int - 'a' as int + 10
    }
}

/// Whether every character of `digits` is a hexadecimal digit.
pub open spec fn all_hex(digits: Seq<char>) -> bool {
    forall|i: int| 0 <= i < digits.len() ==> is_hex(#[trigger] digits[i])
}

/// The number that `digits` write in base sixteen, most significant first.
pub open spec fn hex_value(digits: Seq<char>) -> int
    decreases digits.len(),
{
    if digits.len() == 0 {
        0
    } else {
        16 * hex_value(digits.drop_last()) + hex_digit(digits.last())
    }
}

/// `text` without one plus sign at its start.
pub open spec fn unsigned(text: Seq<char>) -> Seq<char> {
    if text.len() > 0 && text[0] == '+' {
        text.skip(1)
    } else {
        text
    }
}

/// The 32-bit number that `text` writes in base sixteen: an optional plus sign,
/// then one or more digits and nothing else, with a value that fits.
pub open spec fn hex_number(text: Seq<char>) -> Option<u32> {
    let digits = unsigned(text);
    if digits.len() > 0 && all_hex(digits) && hex_value(digits) <= u32::MAX {
        Some(hex_value(digits) as u32)
    } else {
        None
    }
}

/// The character for the digit `d` of a decimal number.
pub open spec fn decimal_digit(d: int) -> char {
    (d + '0' as int) as char
}

/// The number `n` in base ten, without leading zeros.
pub open spec fn decimal(n: nat) -> Seq<char>
    decreases n,
{
    if n < 10 {
        seq![decimal_digit(n as int)]
    } else {
        decimal(n / 10).push(decimal_digit((n % 10) as int))
    }
}

/// A number written with more digits is not less than with fewer.
proof fn lemma_hex_prefix(digits: Seq<char>, k: int)
    requires
        0 <= k <= digits.len(),
        all_hex(digits),
    ensures
        0 <= hex_value(digits.take(k)) <= hex_value(digits),
    decreases digits.len(),
{
    if k == digits.len() {
        assert(digits.take(k) =~= digits);
        if k > 0 {
            assert(is_hex(digits.last()));
            assert forall|i: int| 0 <= i < k - 1 implies is_hex(
                #[trigger] digits.drop_last()[i],
            ) by {
                assert(is_hex(digits[i]));
            }
            lemma_hex_prefix(digits.drop_last(), k - 1);
        }
    } else {
        assert(is_hex(digits.last()));
        assert forall|i: int| 0 <= i < digits.len() - 1 implies is_hex(
            #[trigger] digits.drop_last()[i],
        ) by {
            assert(is_hex(digits[i]));
        }
        assert(digits.drop_last().take(k) =~= digits.take(k));
        lemma_hex_prefix(digits.drop_last(), k);
    }
}

/// Reads a hexadecimal digit.
fn read_hex_digit(c: char) -> (digit: Option<u32>)
    ensures
        match digit {
            Some(d) => is_hex(c) && d == hex_digit(c) && d < 16,
            None => !is_hex(c),
        },
{
    let n: u32 = c as u32;
    if '0' <= c && c <= '9' {
        Some(n - 48)
    } else if 'a' <= c && c <= 'f' {
        Some(n - 97 + 10)
    } else if 'A' <= c && c <= 'F' {
        Some(n - 65 + 10)
    } else {
        None
    }
}

/// Reads a hexadecimal number of 32 bits.
pub fn parse_hex(text: &str) -> (number: Option<u32>)
    ensures
        number == hex_number(text@),
{
    let chars = characters(text);
    let start: usize = if chars.len() > 0 && chars[0] == '+' {
        1
    } else {
        0
    };
    let ghost digits = unsigned(text@);
    assert(digits =~= text@.skip(start as int));
    if start == chars.len() {
        return None;
    }
    let mut value: u32 = 0;
    let mut at: usize = start;
    while at < chars.len()
        invariant
            chars@ == text@,
            digits == text@.skip(start as int),
            start <= at <= chars@.len(),
            forall|i: int| 0 <= i < at - start ==> is_hex(#[trigger] digits[i]),
            value == hex_value(digits.take(at - start)),
            digits == unsigned(text@),
        decreases chars@.len() - at,
    {
        let ghost more = digits.take(at + 1 - start);
        assert(more.drop_last() =~= digits.take(at - start));
        assert(digits[at - start] == chars@[at as int]);
        match read_hex_digit(chars[at]) {
            Some(digit) => {
                if value > (u32::MAX - digit) / 16 {
                    proof {
                        assert(hex_value(more) > u32::MAX);
                        if all_hex(digits) {
                            lemma_hex_prefix(digits, at + 1 - start);
                        }
                    }
                    return None;
                }
                value = 16 * value + digit;
            },
            None => {
                return None;
            },
        }
        at = at + 1;
    }
    assert(digits.take(at - start) =~= digits);
    Some(value)
}

/// The text of one decimal digit.
fn digit_text(d: u64) -> (text: &'static str)
    requires
        d < 10,
    ensures
        text@ == seq![decimal_digit(d as int)],
{
    proof {
        reveal_strlit("0");
        reveal_strlit("1");
        reveal_strlit("2");
        reveal_strlit("3");
        reveal_strlit("4");
        reveal_strlit("5");
        reveal_strlit("6");
        reveal_strlit("7");
        reveal_strlit("8");
        reveal_strlit("9");
    }
    if d == 0 {
        "0"
    } else if d == 1 {
        "1"
    } else if d == 2 {
        "2"
    } else if d == 3 {
        "3"
    } else if d == 4 {
        "4"
    } else if d == 5 {
        "5"
    } else if d == 6 {
        "6"
    } else if d == 7 {
        "7"
    } else if d == 8 {
        "8"
    } else {
        "9"
    }
}

/// Writes a number in base ten.
pub fn to_decimal(n: u64) -> (text: String)
    ensures
        text@ == decimal(n as nat),
    decreases n,
{
    if n < 10 {
        digit_text(n).to_string()
    } else {
        let mut text = to_decimal(n / 10);
        text.append(digit_text(n % 10));
        assert(text@ =~= decimal(n as nat));
        text
    }
}

} // verus!

//! What holds of numbers as they are read and written.

use vstd::prelude::*;

use crate::laws::pci::{hex_text, lemma_hex_text};
use crate::number::{
    all_hex, decimal, decimal_digit, hex_digit, hex_number, hex_value, is_hex, unsigned,
};

verus! {

/// The number that `digits` write in base ten, most significant first.
pub open spec fn dec_value(digits: Seq<char>) -> int
    decreases digits.len(),
{
    if digits.len() == 0 {
        0
    } else {
        10 * dec_value(digits.drop_last()) + (digits.last() as int - '0' as int)
    }
}

/// A number that is written in base ten reads as what it is, in digits only and
/// without a zero in front.
pub proof fn law_decimal_is_read_back(n: nat)
    ensures
        dec_value(decimal(n)) == n,
        decimal(n).len() > 0,
        forall|i: int| 0 <= i < decimal(n).len() ==> '0' <= #[trigger] decimal(n)[i] <= '9',
        decimal(n).len() > 1 ==> decimal(n)[0] != '0',
        decimal(n)[0] == '0' ==> n == 0,
    decreases n,
{
    let text = decimal(n);
    assert(decimal_digit((n % 10) as int) as int == n % 10 + 48);
    if n < 10 {
        assert(text.drop_last() =~= seq![]);
        assert(dec_value(text.drop_last()) == 0);
        assert(text.last() as int == n + 48);
    } else {
        law_decimal_is_read_back(n / 10);
        assert(text.drop_last() =~= decimal(n / 10));
        assert(text[0] == decimal(n / 10)[0]);
    }
}

proof fn lemma_unsigned(digits: Seq<char>)
    requires
        all_hex(digits),
    ensures
        unsigned(digits) == digits,
{
    if digits.len() > 0 {
        assert(is_hex(digits[0]));
    }
}

/// A number in base sixteen reads as what it is, with leading zeros or without, as
/// far as 32 bits reach; one that is greater is not read.
pub proof fn law_hex_is_read_back(n: nat, width: nat)
    ensures
        hex_number(hex_text(n, width)) == if n <= 0xffff_ffff {
            Some(n as u32)
        } else {
            None
        },
{
    lemma_hex_text(n, width);
    lemma_unsigned(hex_text(n, width));
}

/// Whether `b` is `a` up to the case of the letters from A to F.
pub open spec fn same_but_case(a: char, b: char) -> bool {
    ||| a == b
    ||| 'a' <= a <= 'f' && b as int == a as int - 'a' as int + 'A' as int
    ||| 'A' <= a <= 'F' && b as int == a as int - 'A' as int + 'a' as int
}

proof fn lemma_case(a: Seq<char>, b: Seq<char>)
    requires
        a.len() == b.len(),
        forall|i: int| 0 <= i < a.len() ==> same_but_case(#[trigger] a[i], b[i]),
    ensures
        all_hex(a) == all_hex(b),
        all_hex(a) ==> hex_value(a) == hex_value(b),
    decreases a.len(),
{
    assert forall|i: int| 0 <= i < a.len() implies is_hex(#[trigger] a[i]) == is_hex(b[i]) by {
        assert(same_but_case(a[i], b[i]));
    }
    if all_hex(a) {
        assert forall|i: int| 0 <= i < b.len() implies is_hex(#[trigger] b[i]) by {
            assert(is_hex(a[i]));
        }
    }
    if all_hex(b) {
        assert forall|i: int| 0 <= i < a.len() implies is_hex(#[trigger] a[i]) by {
            assert(is_hex(b[i]));
        }
    }
    if all_hex(a) && a.len() > 0 {
        let x = a.drop_last();
        let y = b.drop_last();
        assert forall|i: int| 0 <= i < x.len() implies same_but_case(#[trigger] x[i], y[i]) by {
            assert(same_but_case(a[i], b[i]));
        }
        assert forall|i: int| 0 <= i < x.len() implies is_hex(#[trigger] x[i]) by {
            assert(is_hex(a[i]));
        }
        lemma_case(x, y);
        assert(same_but_case(a[a.len() - 1], b[a.len() - 1]));
        assert(is_hex(a[a.len() - 1]));
        assert(hex_digit(a.last()) == hex_digit(b.last()));
    }
}

/// The case of the digits does not matter.
pub proof fn law_hex_is_read_in_either_case(a: Seq<char>, b: Seq<char>)
    requires
        a.len() == b.len(),
        forall|i: int| 0 <= i < a.len() ==> same_but_case(#[trigger] a[i], b[i]),
    ensures
        hex_number(a) == hex_number(b),
{
    if a.len() > 0 {
        assert(same_but_case(a[0], b[0]));
    }
    if a.len() > 0 && a[0] == '+' {
        let x = a.skip(1);
        let y = b.skip(1);
        assert forall|i: int| 0 <= i < x.len() implies same_but_case(#[trigger] x[i], y[i]) by {
            assert(same_but_case(a[i + 1], b[i + 1]));
        }
        lemma_case(x, y);
    } else {
        lemma_case(a, b);
    }
}

proof fn lemma_zero(digits: Seq<char>)
    ensures
        hex_value(seq!['0'] + digits) == hex_value(digits),
    decreases digits.len(),
{
    let more = seq!['0'] + digits;
    if digits.len() == 0 {
        assert(more.drop_last() =~= seq![]);
        assert(hex_value(more.drop_last()) == 0);
        assert(more.last() == '0');
    } else {
        assert(more.drop_last() =~= seq!['0'] + digits.drop_last());
        assert(more.last() == digits.last());
        lemma_zero(digits.drop_last());
    }
}

/// A zero in front and one plus sign change nothing; a second sign is not read.
pub proof fn law_hex_may_have_a_zero_or_a_sign(digits: Seq<char>)
    requires
        digits.len() > 0,
        digits[0] != '+',
    ensures
        hex_number(seq!['0'] + digits) == hex_number(digits),
        hex_number(seq!['+'] + digits) == hex_number(digits),
        hex_number(seq!['+', '+'] + digits) is None,
{
    let zero = seq!['0'] + digits;
    let plus = seq!['+'] + digits;
    let twice = seq!['+', '+'] + digits;
    lemma_zero(digits);
    assert(zero[0] == '0');
    if all_hex(zero) {
        assert forall|i: int| 0 <= i < digits.len() implies is_hex(#[trigger] digits[i]) by {
            assert(is_hex(zero[i + 1]));
        }
    }
    if all_hex(digits) {
        assert forall|i: int| 0 <= i < zero.len() implies is_hex(#[trigger] zero[i]) by {
            if i > 0 {
                assert(is_hex(digits[i - 1]));
            }
        }
    }
    assert(plus.skip(1) =~= digits);
    assert(unsigned(twice) =~= seq!['+'] + digits);
    assert(!is_hex(unsigned(twice)[0]));
}

/// Only digits are read, at least one: no sign but one in front, no white space, no
/// prefix, nothing behind.
pub proof fn law_only_hex_is_read(text: Seq<char>)
    requires
        hex_number(text) is Some,
    ensures
        text.len() > 0,
        text[0] == '+' ==> text.len() > 1,
        forall|i: int|
            0 <= i < text.len() ==> {
                ||| '0' <= #[trigger] text[i] <= '9'
                ||| 'a' <= text[i] <= 'f'
                ||| 'A' <= text[i] <= 'F'
                ||| i == 0 && text[i] == '+'
            },
{
    let digits = unsigned(text);
    assert forall|i: int| 0 <= i < text.len() implies {
        ||| '0' <= #[trigger] text[i] <= '9'
        ||| 'a' <= text[i] <= 'f'
        ||| 'A' <= text[i] <= 'F'
        ||| i == 0 && text[i] == '+'
    } by {
        if text[0] == '+' {
            if i > 0 {
                assert(digits[i - 1] == text[i]);
                assert(is_hex(digits[i - 1]));
            }
        } else {
            assert(is_hex(digits[i]));
        }
    }
}

} // verus!

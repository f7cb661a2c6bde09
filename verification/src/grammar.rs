//! The character-level pieces of a note name: decimal digits and the optional
//! register number that ends a note name.

use vstd::prelude::*;

verus! {

/// Whether `c` is one of the ten decimal digits.
pub open spec fn is_digit(c: char) -> bool {
    '0' <= c <= '9'
}

/// The number that the digit `c` stands for.
pub open spec fn digit_value(c: char) -> nat
    recommends
        is_digit(c),
{
    (c as int - '0' as int) as nat
}

/// The digit that stands for `d`.
pub open spec fn digit_symbol(d: nat) -> char
    recommends
        d < 10,
{
    (d + '0' as nat) as char
}

/// Decodes one decimal digit.
pub fn digit_of(c: char) -> (d: Option<u8>)
    ensures
        d is Some <==> is_digit(c),
        d matches Some(v) ==> v == digit_value(c) && v < 10,
{
    if '0' <= c && c <= '9' {
        Some(c as u8 - 48)
    } else {
        None
    }
}

/// The decimal numeral of `m`: its digits, the most significant first, with
/// no leading zero.
pub open spec fn numeral(m: nat) -> Seq<char>
    decreases m,
{
    if m < 10 {
        seq![digit_symbol(m)]
    } else {
        numeral(m / 10).push(digit_symbol(m % 10))
    }
}

/// The decimal text of a signed integer: the numeral of its magnitude, after
/// a minus sign if it is negative.
pub open spec fn decimal_text(v: int) -> Seq<char> {
    if v < 0 {
        seq!['-'] + numeral((-v) as nat)
    } else {
        numeral(v as nat)
    }
}

/// The one-character text of the digit `d`.
fn digit_str(d: u8) -> (text: &'static str)
    requires
        d < 10,
    ensures
        text@ == seq![digit_symbol(d as nat)],
{
    proof {
        reveal_strlit("0");
        reveal_strlit("1");
        reveal_strlit("2");
        reveal_strlit("3");
        reveal_strlit("4");
        reveal_strlit("5");
        reveal_strlit("6");
        reveal_strlit("7");
        reveal_strlit("8");
        reveal_strlit("9");
    }
    match d {
        0 => "0",
        1 => "1",
        2 => "2",
        3 => "3",
        4 => "4",
        5 => "5",
        6 => "6",
        7 => "7",
        8 => "8",
        _ => "9",
    }
}

/// Appends the numeral of `m` to `out`.
pub fn append_numeral(out: &mut String, m: u8)
    ensures
        final(out)@ == old(out)@ + numeral(m as nat),
    decreases m,
{
    if m >= 10 {
        append_numeral(out, m / 10);
    }
    out.append(digit_str(m % 10));
}

/// Appends the decimal text of `v` to `out`.
pub fn append_decimal(out: &mut String, v: i8)
    ensures
        final(out)@ == old(out)@ + decimal_text(v as int),
{
    if v < 0 {
        out.append("-");
        proof {
            reveal_strlit("-");
        }
        let magnitude: i16 = -(v as i16);
        append_numeral(out, magnitude as u8);
    } else {
        append_numeral(out, v as u8);
    }
}

/// Whether every character of `s` is a decimal digit.
pub open spec fn all_digits(s: Seq<char>) -> bool {
    forall|i: int| 0 <= i < s.len() ==> is_digit(#[trigger] s[i])
}

/// The number that a string of digits denotes in base ten.
pub open spec fn numeral_value(s: Seq<char>) -> nat
    recommends
        all_digits(s),
    decreases s.len(),
{
    if s.len() == 0 {
        0
    } else {
        10 * numeral_value(s.drop_last()) + digit_value(s.last())
    }
}

/// The magnitude of a register: one or two digits.
pub open spec fn is_magnitude(s: Seq<char>) -> bool {
    1 <= s.len() <= 2 && all_digits(s)
}

/// The register of a note name: nothing at all, or one or two digits, which
/// a single minus sign may precede. A minus sign alone is no register.
pub open spec fn is_register(s: Seq<char>) -> bool {
    s.len() == 0 || is_magnitude(s) || (s[0] == '-' && is_magnitude(s.skip(1)))
}

/// The number that a register denotes; the empty register denotes none.
pub open spec fn register_value(s: Seq<char>) -> Option<i8>
    recommends
        is_register(s),
{
    if s.len() == 0 {
        None
    } else if s[0] == '-' {
        Some((-(numeral_value(s.skip(1)) as int)) as i8)
    } else {
        Some(numeral_value(s) as i8)
    }
}

/// Whether a register is written as a number renders: no zero stands before
/// another digit, and no minus sign before a zero.
pub open spec fn is_canonical_register(s: Seq<char>) -> bool {
    &&& is_register(s)
    &&& s.len() > 0 ==> s == seq!['0'] || (if s[0] == '-' {
        s[1]
    } else {
        s[0]
    }) != '0'
}

/// Reads a register. The result is `None` where `s` is not a register, and
/// otherwise holds the number that it denotes, if it denotes one.
pub fn parse_register(s: &str) -> (r: Option<Option<i8>>)
    ensures
        r is Some <==> is_register(s@),
        r matches Some(n) ==> n == register_value(s@),
{
    let len = s.unicode_len();
    if len == 0 {
        return Some(None);
    }
    let negative = s.get_char(0) == '-';
    let first: usize = if negative { 1 } else { 0 };
    let ghost digits = s@.skip(first as int);
    if len - first == 0 || len - first > 2 {
        return None;
    }
    let high = match digit_of(s.get_char(first)) {
        Some(d) => d,
        None => {
            return None;
        },
    };
    if len - first == 1 {
        proof {
            reveal_with_fuel(numeral_value, 2);
        }
        return Some(Some(if negative { -(high as i8) } else { high as i8 }));
    }
    let low = match digit_of(s.get_char(first + 1)) {
        Some(d) => d,
        None => {
            assert(!is_digit(digits[1]));
            return None;
        },
    };
    let value: i8 = (10 * high + low) as i8;
    proof {
        reveal_with_fuel(numeral_value, 3);
        assert(digits.drop_last().last() == digits[0]);
    }
    Some(Some(if negative { -value } else { value }))
}

} // verus!

//! Decimal numerals: writing a number and reading one back.

use vstd::prelude::*;
use vstd::string::*;
use crate::text::push_char;

verus! {

/// A decimal digit.
pub open spec fn is_digit(c: char) -> bool {
    '0' <= c <= '9'
}

/// The value of a decimal digit.
pub open spec fn digit_value(c: char) -> nat {
    (c as u32 - '0' as u32) as nat
}

/// The digit that stands for a value below ten.
pub open spec fn digit_of(d: nat) -> char {
    (d + '0' as u32) as char
}

/// Every character is a decimal digit.
pub open spec fn all_digits(s: Seq<char>) -> bool {
    forall|k: int| 0 <= k < s.len() ==> is_digit(#[trigger] s[k])
}

/// The number that a sequence of digits stands for; leading zeros count for nothing.
pub open spec fn number(digits: Seq<char>) -> nat
    decreases digits.len(),
{
    if digits.len() == 0 {
        0
    } else {
        number(digits.drop_last()) * 10 + digit_value(digits.last())
    }
}

/// The decimal numeral of `n`, without leading zeros.
pub open spec fn decimal(n: nat) -> Seq<char>
    decreases n,
{
    if n < 10 {
        seq![digit_of(n)]
    } else {
        decimal(n / 10).push(digit_of(n % 10))
    }
}

/// What is left of a numeral when an optional plus sign in front is dropped.
pub open spec fn unsigned_part(s: Seq<char>) -> Seq<char> {
    if s.len() > 0 && s[0] == '+' {
        s.subrange(1, s.len() as int)
    } else {
        s
    }
}

/// The number that `s` stands for as a 16-bit unsigned numeral: an optional
/// plus sign and then one or more digits, whose value fits in 16 bits.
pub open spec fn u16_of(s: Seq<char>) -> Option<u16> {
    let digits = unsigned_part(s);
    if digits.len() > 0 && all_digits(digits) && number(digits) <= u16::MAX {
        Some(number(digits) as u16)
    } else {
        None
    }
}

/// A prefix of a digit sequence stands for no more than the whole.
pub proof fn lemma_number_prefix(digits: Seq<char>, k: int)
    requires
        0 <= k <= digits.len(),
    ensures
        number(digits.subrange(0, k)) <= number(digits),
    decreases digits.len(),
{
    if k == digits.len() {
        assert(digits.subrange(0, k) =~= digits);
    } else {
        assert(digits.drop_last().subrange(0, k) =~= digits.subrange(0, k));
        lemma_number_prefix(digits.drop_last(), k);
    }
}

/// Reading the numeral of a number gives the number back.
pub proof fn lemma_number_of_decimal(n: nat)
    ensures
        decimal(n).len() > 0,
        all_digits(decimal(n)),
        number(decimal(n)) == n,
    decreases n,
{
    if n < 10 {
        assert(decimal(n).drop_last() =~= Seq::<char>::empty());
        assert(number(decimal(n).drop_last()) == 0);
    } else {
        lemma_number_of_decimal(n / 10);
        assert(decimal(n).drop_last() =~= decimal(n / 10));
    }
}

/// Writes `n` as a decimal numeral.
pub fn decimal_string(n: u16) -> (s: String)
    ensures
        s@ == decimal(n as nat),
    decreases n,
{
    if n < 10 {
        let mut s = String::new();
        push_char(&mut s, digit_char(n as u8));
        assert(s@ =~= decimal(n as nat));
        s
    } else {
        let mut s = decimal_string(n / 10);
        push_char(&mut s, digit_char((n % 10) as u8));
        s
    }
}

/// The digit for a value below ten.
pub fn digit_char(d: u8) -> (c: char)
    requires
        d < 10,
    ensures
        c == digit_of(d as nat),
        is_digit(c),
        digit_value(c) == d,
{
    (d + 48) as char
}

/// The value of `c` where it is a decimal digit.
pub fn digit_of_char(c: char) -> (d: Option<u8>)
    ensures
        (match d {
            Some(v) => is_digit(c) && v == digit_value(c),
            None => !is_digit(c),
        }),
{
    if '0' <= c && c <= '9' {
        Some((c as u32 - 48) as u8)
    } else {
        None
    }
}

/// Reads a 16-bit unsigned decimal numeral: an optional plus sign and then
/// digits only. Anything else, an empty numeral and a value that does not
/// fit are rejected.
pub fn parse_u16(s: &str) -> (r: Option<u16>)
    ensures
        r == u16_of(s@),
{
    let len = s.unicode_len();
    let start: usize = if len > 0 && s.get_char(0) == '+' {
        1
    } else {
        0
    };
    if start == len {
        return None;
    }
    let ghost digits = unsigned_part(s@);
    assert(digits =~= s@.subrange(start as int, len as int));
    let mut value: u32 = 0;
    let mut i: usize = start;
    while i < len
        invariant
            start <= i <= len,
            len == s@.len(),
            digits == s@.subrange(start as int, len as int),
            digits == unsigned_part(s@),
            value == number(digits.subrange(0, i - start)),
            value <= u16::MAX,
            forall|k: int| 0 <= k < i - start ==> is_digit(#[trigger] digits[k]),
        decreases len - i,
    {
        let d = match digit_of_char(s.get_char(i)) {
            Some(d) => d,
            None => {
                assert(!is_digit(digits[i - start]));
                return None;
            },
        };
        proof {
            let ghost next = digits.subrange(0, i - start + 1);
            assert(next.drop_last() =~= digits.subrange(0, i - start));
            assert(next.last() == digits[i - start]);
            lemma_number_prefix(digits, i - start + 1);
        }
        let next = value * 10 + d as u32;
        if next > 65535 {
            return None;
        }
        value = next;
        i += 1;
    }
    assert(digits.subrange(0, i - start) =~= digits);
    Some(value as u16)
}

} // verus!

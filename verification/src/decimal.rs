use vstd::prelude::*;

verus! {

/// An ASCII decimal digit.
pub open spec fn is_digit(c: char) -> bool {
    '0' <= c && c <= '9'
}

/// A string of ASCII decimal digits only.
pub open spec fn all_digits(s: Seq<char>) -> bool {
    forall|i: int| 0 <= i < s.len() ==> #[trigger] is_digit(s[i])
}

/// The ASCII character of the digit `d`.
pub open spec fn digit_char(d: nat) -> char
    recommends d < 10,
{
    (('0' as nat) + d) as char
}

/// The number that a string of decimal digits writes.
pub open spec fn digits_value(s: Seq<char>) -> nat
    decreases s.len(),
{
    if s.len() == 0 {
        0
    } else {
        digits_value(s.drop_last()) * 10 + ((s.last() as nat) - ('0' as nat)) as nat
    }
}

/// The decimal writing of `n`: no sign and no leading zero ("0" for zero).
pub open spec fn decimal(n: nat) -> Seq<char>
    decreases n,
{
    if n < 10 {
        seq![digit_char(n)]
    } else {
        decimal(n / 10).push(digit_char(n % 10))
    }
}

/// The decimal writing of a signed number: a `-` before the digits of a negative one.
pub open spec fn signed_decimal(n: int) -> Seq<char> {
    if n < 0 {
        seq!['-'] + decimal((-n) as nat)
    } else {
        decimal(n as nat)
    }
}

/// The digits after an optional leading `+`.
pub open spec fn unsigned_digits(s: Seq<char>) -> Seq<char> {
    if s.len() > 0 && s[0] == '+' {
        s.skip(1)
    } else {
        s
    }
}

/// The value of a decimal string, as the standard library's `from_str` of an
/// unsigned integer type reads it: an optional `+`, then one or more ASCII digits.
pub open spec fn parse_unsigned(s: Seq<char>) -> Option<nat> {
    let d = unsigned_digits(s);
    if d.len() > 0 && all_digits(d) {
        Some(digits_value(d))
    } else {
        None
    }
}

/// The value of a decimal string, as the standard library's `from_str` of a
/// signed integer type reads it: an optional `+` or `-`, then one or more ASCII digits.
pub open spec fn parse_signed(s: Seq<char>) -> Option<int> {
    if s.len() > 0 && s[0] == '-' {
        let d = s.skip(1);
        if d.len() > 0 && all_digits(d) {
            Some(-(digits_value(d) as int))
        } else {
            None
        }
    } else {
        match parse_unsigned(s) {
            Some(n) => Some(n as int),
            None => None,
        }
    }
}

/// `u64::from_str`: the value when it fits.
pub open spec fn parse_u64(s: Seq<char>) -> Option<u64> {
    match parse_unsigned(s) {
        Some(n) => if n <= u64::MAX { Some(n as u64) } else { None },
        None => None,
    }
}

/// `u32::from_str`: the value when it fits.
pub open spec fn parse_u32(s: Seq<char>) -> Option<u32> {
    match parse_unsigned(s) {
        Some(n) => if n <= u32::MAX { Some(n as u32) } else { None },
        None => None,
    }
}

/// `i64::from_str`: the value when it fits.
pub open spec fn parse_i64(s: Seq<char>) -> Option<i64> {
    match parse_signed(s) {
        Some(n) => if i64::MIN <= n <= i64::MAX { Some(n as i64) } else { None },
        None => None,
    }
}

/// The decimal writing of a number is made of digits only, starts with no `0` unless it is
/// the number zero, and reads back as the number.
pub proof fn lemma_decimal_digits(n: nat)
    ensures
        decimal(n).len() > 0,
        all_digits(decimal(n)),
        decimal(n)[0] != '+',
        decimal(n)[0] != '-',
        digits_value(decimal(n)) == n,
        n > 0 ==> decimal(n)[0] != '0',
        n == 0 ==> decimal(n) == seq!['0'],
    decreases n,
{
    assert(digit_char(n % 10) as nat == ('0' as nat) + n % 10);
    if n < 10 {
        assert(digit_char(n) as nat == ('0' as nat) + n);
        let d = decimal(n);
        assert(d.drop_last().len() == 0);
        assert(digits_value(d.drop_last()) == 0);
        assert(d.last() == digit_char(n));
        assert(digits_value(d) == n);
    } else {
        lemma_decimal_digits(n / 10);
        let d = decimal(n);
        assert(d.drop_last() == decimal(n / 10));
        assert(d.last() == digit_char(n % 10));
        assert(n == (n / 10) * 10 + n % 10);
        assert(digits_value(d) == digits_value(decimal(n / 10)) * 10 + n % 10);
        assert(d[0] == decimal(n / 10)[0]);
        assert forall|i: int| 0 <= i < d.len() implies #[trigger] is_digit(d[i]) by {
            if i < d.len() - 1 {
                assert(d[i] == decimal(n / 10)[i]);
            }
        }
    }
}

/// Reading back the decimal writing of a `u64` gives the number.
pub proof fn lemma_parse_u64_decimal(n: u64)
    ensures parse_u64(decimal(n as nat)) == Some(n),
{
    lemma_decimal_digits(n as nat);
}

/// Reading back the decimal writing of an `i64` gives the number.
pub proof fn lemma_parse_i64_decimal(n: i64)
    ensures parse_i64(signed_decimal(n as int)) == Some(n),
{
    if n < 0 {
        lemma_decimal_digits((-n) as nat);
        let s = signed_decimal(n as int);
        assert(s.skip(1) == decimal((-n) as nat));
    } else {
        lemma_decimal_digits(n as nat);
    }
}

} // verus!

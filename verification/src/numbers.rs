//! Decimal integer parsing with the outcomes of `str::parse` for unsigned
//! integer types.

use vstd::prelude::*;
use crate::text::push_str;

verus! {

/// Why a text is not an unsigned integer of the requested range.
#[derive(PartialEq, Eq, Debug, Clone, Copy)]
pub enum IntParseError {
    /// The text is empty.
    Empty,
    /// A character is not a decimal digit (a lone sign counts as one).
    InvalidDigit,
    /// The value is above the largest value of the type.
    PosOverflow,
}

/// Whether `c` is one of `0` to `9`.
pub open spec fn is_digit(c: char) -> bool {
    '0' <= c && c <= '9'
}

/// The value of a decimal digit character.
pub open spec fn digit_value(c: char) -> nat {
    ((c as u32) - ('0' as u32)) as nat
}

/// Reads the digits of `d` from left to right; the first character that is not
/// a digit, or the first digit that takes the value above `max`, decides the
/// error.
pub open spec fn scan_digits(d: Seq<char>, max: nat) -> Result<nat, IntParseError>
    decreases d.len(),
{
    if d.len() == 0 {
        Ok(0)
    } else {
        match scan_digits(d.drop_last(), max) {
            Err(e) => Err(e),
            Ok(v) => if !is_digit(d.last()) {
                Err(IntParseError::InvalidDigit)
            } else if v * 10 + digit_value(d.last()) > max {
                Err(IntParseError::PosOverflow)
            } else {
                Ok(v * 10 + digit_value(d.last()))
            },
        }
    }
}

/// The outcome of parsing `s` as an unsigned integer not above `max`: an
/// optional leading `+`, then decimal digits.
pub open spec fn parse_unsigned(s: Seq<char>, max: nat) -> Result<nat, IntParseError> {
    if s.len() == 0 {
        Err(IntParseError::Empty)
    } else if (s[0] == '+' || s[0] == '-') && s.len() == 1 {
        Err(IntParseError::InvalidDigit)
    } else if s[0] == '+' {
        scan_digits(s.drop_first(), max)
    } else {
        scan_digits(s, max)
    }
}

proof fn lemma_scan_bounded(d: Seq<char>, max: nat)
    ensures
        scan_digits(d, max) matches Ok(v) ==> v <= max,
    decreases d.len(),
{
    if d.len() > 0 {
        lemma_scan_bounded(d.drop_last(), max);
    }
}

/// Parses the characters of `v` as an unsigned integer not above `max`.
pub fn parse_unsigned_chars(v: &[char], max: u64) -> (r: Result<u64, IntParseError>)
    ensures
        match parse_unsigned(v@, max as nat) {
            Ok(n) => r == Ok::<u64, IntParseError>(n as u64),
            Err(e) => r == Err::<u64, IntParseError>(e),
        },
{
    if v.len() == 0 {
        return Err(IntParseError::Empty);
    }
    if (v[0] == '+' || v[0] == '-') && v.len() == 1 {
        return Err(IntParseError::InvalidDigit);
    }
    let start: usize = if v[0] == '+' { 1 } else { 0 };
    let ghost d = v@.subrange(start as int, v@.len() as int);
    assert(start == 0 ==> d =~= v@);
    let mut value: u64 = 0;
    let mut i: usize = start;
    while i < v.len()
        invariant
            start <= i <= v.len(),
            d == v@.subrange(start as int, v@.len() as int),
            parse_unsigned(v@, max as nat) == scan_digits(d, max as nat),
            value <= max,
            scan_digits(d.take(i - start), max as nat) == Ok::<nat, IntParseError>(value as nat),
        decreases v.len() - i,
    {
        let c = v[i];
        proof {
            assert(d.take(i - start + 1).drop_last() =~= d.take(i - start));
        }
        if !('0' <= c && c <= '9') {
            proof {
                let k = i - start + 1;
                lemma_scan_rest_err(d, k, max as nat, IntParseError::InvalidDigit);
            }
            return Err(IntParseError::InvalidDigit);
        }
        let x = (c as u32 - '0' as u32) as u64;
        let next: u128 = value as u128 * 10 + x as u128;
        if next > max as u128 {
            proof {
                lemma_scan_rest_err(d, i - start + 1, max as nat, IntParseError::PosOverflow);
            }
            return Err(IntParseError::PosOverflow);
        }
        value = next as u64;
        i = i + 1;
    }
    assert(d.take(v.len() - start) =~= d);
    Ok(value)
}

proof fn lemma_scan_rest_err(d: Seq<char>, k: int, max: nat, e: IntParseError)
    requires
        0 <= k <= d.len(),
        scan_digits(d.take(k), max) == Err::<nat, IntParseError>(e),
    ensures
        scan_digits(d, max) == Err::<nat, IntParseError>(e),
    decreases d.len() - k,
{
    if k == d.len() {
        assert(d.take(k) =~= d);
    } else {
        assert(d.take(k + 1).drop_last() =~= d.take(k));
        lemma_scan_rest_err(d, k + 1, max, e);
    }
}

/// The message that `ParseIntError` displays for each kind of failure.
pub open spec fn int_parse_error_message(e: IntParseError) -> Seq<char> {
    match e {
        IntParseError::Empty => "cannot parse integer from empty string"@,
        IntParseError::InvalidDigit => "invalid digit found in string"@,
        IntParseError::PosOverflow => "number too large to fit in target type"@,
    }
}

/// Appends the message of a parse failure to `s`.
pub fn push_int_parse_error_message(s: &mut String, e: IntParseError)
    ensures
        final(s)@ == old(s)@ + int_parse_error_message(e),
{
    match e {
        IntParseError::Empty => push_str(s, "cannot parse integer from empty string"),
        IntParseError::InvalidDigit => push_str(s, "invalid digit found in string"),
        IntParseError::PosOverflow => push_str(s, "number too large to fit in target type"),
    }
}

} // verus!

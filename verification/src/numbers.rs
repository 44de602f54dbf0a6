//! Decimal and hexadecimal text of unsigned integers, and reading decimal text back.
use vstd::prelude::*;

use crate::text::chars_of;

verus! {

/// The character of a decimal digit.
pub open spec fn digit_char(d: int) -> char {
    (48 + d) as char
}

/// The decimal text of `n`, without leading zeros.
pub open spec fn decimal(n: nat) -> Seq<char>
    decreases n,
{
    if n < 10 {
        seq![digit_char(n as int)]
    } else {
        decimal(n / 10).push(digit_char((n % 10) as int))
    }
}

/// Appends the decimal text of `n`.
pub fn push_decimal(out: &mut String, n: u64)
    ensures
        final(out)@ == old(out)@ + decimal(n as nat),
    decreases n,
{
    if n >= 10 {
        push_decimal(out, n / 10);
    }
    let d: u8 = (n % 10) as u8;
    out.push((48 + d) as char);
    proof {
        assert(out@ =~= old(out)@ + decimal(n as nat));
    }
}

/// The character of a hexadecimal digit, in lower case.
pub open spec fn hex_char(d: int) -> char {
    if d < 10 {
        (48 + d) as char
    } else {
        (87 + d) as char
    }
}

/// The two hexadecimal digits of a byte, in lower case.
pub open spec fn hex_byte(b: u8) -> Seq<char> {
    seq![hex_char(b as int / 16), hex_char(b as int % 16)]
}

fn hex_digit(d: u8) -> (r: char)
    requires
        d < 16,
    ensures
        r == hex_char(d as int),
{
    if d < 10 {
        (48 + d) as char
    } else {
        (87 + d) as char
    }
}

/// Appends the two hexadecimal digits of a byte.
pub fn push_hex_byte(out: &mut String, b: u8)
    ensures
        final(out)@ == old(out)@ + hex_byte(b),
{
    out.push(hex_digit(b / 16));
    out.push(hex_digit(b % 16));
    proof {
        assert(out@ =~= old(out)@ + hex_byte(b));
    }
}

/// Why a text is not the decimal form of an unsigned integer of some width.
#[derive(Debug, Clone, Copy, PartialEq, Eq, Structural)]
pub enum ParseNumberError {
    Empty,
    InvalidDigit,
    TooLarge,
}

/// The message that describes a `ParseNumberError`.
pub open spec fn parse_error_message(e: ParseNumberError) -> Seq<char> {
    match e {
        ParseNumberError::Empty => "cannot parse integer from empty string"@,
        ParseNumberError::InvalidDigit => "invalid digit found in string"@,
        ParseNumberError::TooLarge => "number too large to fit in target type"@,
    }
}

impl ParseNumberError {
    /// Describes the error.
    pub fn to_text(&self) -> (r: String)
        ensures
            r@ == parse_error_message(*self),
    {
        match self {
            ParseNumberError::Empty => "cannot parse integer from empty string".to_owned(),
            ParseNumberError::InvalidDigit => "invalid digit found in string".to_owned(),
            ParseNumberError::TooLarge => "number too large to fit in target type".to_owned(),
        }
    }
}

/// The value of a run of decimal digits, held to `max` after each digit from the left.
pub open spec fn digits_value(s: Seq<char>, max: nat) -> Result<nat, ParseNumberError>
    decreases s.len(),
{
    if s.len() == 0 {
        Ok(0)
    } else {
        match digits_value(s.drop_last(), max) {
            Err(e) => Err(e),
            Ok(v) => {
                let c = s.last();
                if !('0' <= c <= '9') {
                    Err(ParseNumberError::InvalidDigit)
                } else if v * 10 + (c as nat - 48) > max {
                    Err(ParseNumberError::TooLarge)
                } else {
                    Ok((v * 10 + (c as nat - 48)) as nat)
                }
            },
        }
    }
}

/// The value of an unsigned decimal number no larger than `max`, with an optional plus sign.
pub open spec fn number_value(s: Seq<char>, max: nat) -> Result<nat, ParseNumberError> {
    if s.len() == 0 {
        Err(ParseNumberError::Empty)
    } else if s[0] == '+' {
        if s.len() == 1 {
            Err(ParseNumberError::InvalidDigit)
        } else {
            digits_value(s.skip(1), max)
        }
    } else {
        digits_value(s, max)
    }
}

proof fn lemma_digits_prefix_error(s: Seq<char>, max: nat, n: int)
    requires
        0 <= n <= s.len(),
        digits_value(s.take(n), max) is Err,
    ensures
        digits_value(s, max) == digits_value(s.take(n), max),
    decreases s.len(),
{
    if n == s.len() {
        assert(s.take(n) =~= s);
    } else {
        assert(s.drop_last().take(n) =~= s.take(n));
        lemma_digits_prefix_error(s.drop_last(), max, n);
    }
}

/// A number that is read is within its bound.
pub proof fn lemma_number_is_bounded(s: Seq<char>, max: nat)
    ensures
        number_value(s, max) matches Ok(v) ==> v <= max,
{
    if s.len() > 0 {
        assert(digits_value(s, max) matches Ok(v) ==> v <= max);
        assert(digits_value(s.skip(1), max) matches Ok(v) ==> v <= max);
    }
}

/// Reads an unsigned decimal number no larger than `max`.
pub fn parse_number(s: &str, max: u64) -> (r: Result<u64, ParseNumberError>)
    ensures
        match r {
            Ok(v) => number_value(s@, max as nat) == Ok::<nat, ParseNumberError>(v as nat),
            Err(e) => number_value(s@, max as nat) == Err::<nat, ParseNumberError>(e),
        },
{
    let chars = chars_of(s);
    if chars.len() == 0 {
        return Err(ParseNumberError::Empty);
    }
    let start: usize = if chars[0] == '+' {
        1
    } else {
        0
    };
    if start == 1 && chars.len() == 1 {
        return Err(ParseNumberError::InvalidDigit);
    }
    let ghost digits = chars@.skip(start as int);
    proof {
        assert(chars@.skip(0) =~= chars@);
        assert(digits.take(0) =~= Seq::empty());
    }
    let mut value: u64 = 0;
    let mut i: usize = start;
    while i < chars.len()
        invariant
            chars@ == s@,
            start <= i <= chars@.len(),
            digits == chars@.skip(start as int),
            number_value(s@, max as nat) == digits_value(digits, max as nat),
            digits_value(digits.take(i - start), max as nat) == Ok::<nat, ParseNumberError>(
                value as nat,
            ),
        decreases chars@.len() - i,
    {
        let c = chars[i];
        let ghost next = digits.take(i - start + 1);
        proof {
            assert(next.drop_last() =~= digits.take(i - start));
            assert(next.last() == c);
        }
        if !('0' <= c && c <= '9') {
            proof {
                lemma_digits_prefix_error(digits, max as nat, i - start + 1);
            }
            return Err(ParseNumberError::InvalidDigit);
        }
        let d: u64 = (c as u32 - 48) as u64;
        let wide: u128 = value as u128 * 10 + d as u128;
        if wide > max as u128 {
            proof {
                lemma_digits_prefix_error(digits, max as nat, i - start + 1);
            }
            return Err(ParseNumberError::TooLarge);
        }
        value = wide as u64;
        i += 1;
    }
    proof {
        assert(digits.take(digits.len() as int) =~= digits);
    }
    Ok(value)
}

/// A decimal text holds at least one digit and nothing but digits.
pub proof fn lemma_decimal_digits(n: nat)
    ensures
        decimal(n).len() > 0,
        forall|i: int| 0 <= i < decimal(n).len() ==> '0' <= #[trigger] decimal(n)[i] <= '9',
    decreases n,
{
    if n >= 10 {
        lemma_decimal_digits(n / 10);
    }
}

proof fn lemma_digits_value_decimal(n: nat, max: nat)
    requires
        n <= max,
    ensures
        digits_value(decimal(n), max) == Ok::<nat, ParseNumberError>(n),
    decreases n,
{
    if n >= 10 {
        lemma_digits_value_decimal(n / 10, max);
        assert(decimal(n).drop_last() =~= decimal(n / 10));
    } else {
        assert(decimal(n).drop_last() =~= Seq::empty());
        assert(digits_value(Seq::<char>::empty(), max) == Ok::<nat, ParseNumberError>(0));
    }
}

/// Reading the decimal text of a number gives the number back.
pub proof fn law_decimal_reads_back(n: nat, max: nat)
    requires
        n <= max,
    ensures
        number_value(decimal(n), max) == Ok::<nat, ParseNumberError>(n),
{
    lemma_decimal_digits(n);
    assert('0' <= decimal(n)[0] <= '9');
    lemma_digits_value_decimal(n, max);
}

/// Different numbers have different decimal texts.
pub proof fn law_decimal_is_injective(a: nat, b: nat)
    requires
        decimal(a) == decimal(b),
    ensures
        a == b,
{
    let max = if a < b {
        b
    } else {
        a
    };
    law_decimal_reads_back(a, max);
    law_decimal_reads_back(b, max);
}

} // verus!

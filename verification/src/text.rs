//! Text helpers: white space, decimal numbers, and the chars of a string.
use vstd::prelude::*;

verus! {

/// The Unicode property `White_Space`.
pub open spec fn is_white_space(c: char) -> bool {
    let code = c as u32;
    ||| 0x9 <= code <= 0xd
    ||| code == 0x20
    ||| code == 0x85
    ||| code == 0xa0
    ||| code == 0x1680
    ||| 0x2000 <= code <= 0x200a
    ||| code == 0x2028
    ||| code == 0x2029
    ||| code == 0x202f
    ||| code == 0x205f
    ||| code == 0x3000
}

/// A text without its leading and trailing white space.
pub open spec fn trimmed(text: Seq<char>) -> Seq<char>
    decreases text.len(),
{
    if text.len() > 0 && is_white_space(text.first()) {
        trimmed(text.drop_first())
    } else if text.len() > 0 && is_white_space(text.last()) {
        trimmed(text.drop_last())
    } else {
        text
    }
}

/// An ASCII decimal digit.
pub open spec fn is_digit(c: char) -> bool {
    '0' <= c <= '9'
}

/// The number that a row of decimal digits writes.
pub open spec fn digits_value(digits: Seq<char>) -> nat
    decreases digits.len(),
{
    if digits.len() == 0 {
        0
    } else {
        digits_value(digits.drop_last()) * 10 + (digits.last() as nat - '0' as nat) as nat
    }
}

/// The number no greater than `max` that one or more decimal digits write, with nothing else
/// between them.
pub open spec fn bounded_value(digits: Seq<char>, max: nat) -> Option<nat> {
    if digits.len() > 0 && (forall|i: int| 0 <= i < digits.len() ==> is_digit(#[trigger] digits[i]))
        && digits_value(digits) <= max {
        Some(digits_value(digits))
    } else {
        None
    }
}

/// The unsigned number no greater than `max` that a text writes: an optional plus sign,
/// followed by one or more decimal digits and by nothing else.
pub open spec fn parsed_unsigned(text: Seq<char>, max: nat) -> Option<nat> {
    if text.len() > 0 && text[0] == '+' {
        bounded_value(text.drop_first(), max)
    } else {
        bounded_value(text, max)
    }
}

/// The decimal digits of a number, without leading zeros.
pub open spec fn decimal_digits(n: nat) -> Seq<char>
    decreases n,
{
    let digit = (48 + n % 10) as char;
    if n < 10 {
        seq![digit]
    } else {
        decimal_digits(n / 10).push(digit)
    }
}

/// `char::is_whitespace`: the chars with the Unicode property `White_Space`.
pub assume_specification[ char::is_whitespace ](c: char) -> (r: bool)
    ensures
        r == is_white_space(c),
;

/// `String::push`: appends one char.
pub assume_specification[ String::push ](text: &mut String, c: char)
    ensures
        final(text)@ == old(text)@.push(c),
;

/// `str::parse` for `u8`: an optional plus sign followed by only digits, for a number
/// that fits.
#[verifier::external_body]
pub(crate) fn parse_u8(text: &str) -> (r: Option<u8>)
    ensures
        r is Some <==> parsed_unsigned(text@, u8::MAX as nat) is Some,
        r matches Some(n) ==> parsed_unsigned(text@, u8::MAX as nat) == Some(n as nat),
{
    text.parse::<u8>().ok()
}

/// `str::parse` for `u16`: an optional plus sign followed by only digits, for a number
/// that fits.
#[verifier::external_body]
pub(crate) fn parse_u16(text: &str) -> (r: Option<u16>)
    ensures
        r is Some <==> parsed_unsigned(text@, u16::MAX as nat) is Some,
        r matches Some(n) ==> parsed_unsigned(text@, u16::MAX as nat) == Some(n as nat),
{
    text.parse::<u16>().ok()
}

/// The chars of a text, in order.
pub(crate) fn chars_of(text: &str) -> (r: Vec<char>)
    ensures
        r@ == text@,
{
    let mut out: Vec<char> = Vec::new();
    for c in it: text.chars()
        invariant
            it.seq() == text@,
            out@ == text@.take(it.index()),
    {
        proof {
            assert(text@.take(it.index() + 1) =~= text@.take(it.index()).push(c));
        }
        out.push(c);
    }
    assert(text@.take(text@.len() as int) =~= text@);
    out
}

/// Where a text starts and ends once its leading and trailing white space is left out.
pub(crate) fn trim_bounds(chars: &Vec<char>) -> (r: (usize, usize))
    ensures
        r.0 <= r.1 <= chars@.len(),
        chars@.subrange(r.0 as int, r.1 as int) == trimmed(chars@),
{
    let mut start: usize = 0;
    let mut end: usize = chars.len();
    assert(chars@.subrange(0, end as int) =~= chars@);
    while start < end && chars[start].is_whitespace()
        invariant
            start <= end == chars@.len(),
            trimmed(chars@.subrange(start as int, end as int)) == trimmed(chars@),
        decreases end - start,
    {
        proof {
            let rest = chars@.subrange(start as int, end as int);
            assert(rest.first() == chars@[start as int]);
            assert(rest.drop_first() =~= chars@.subrange(start + 1, end as int));
        }
        start += 1;
    }
    while start < end && chars[end - 1].is_whitespace()
        invariant
            start <= end <= chars@.len(),
            start < end ==> !is_white_space(chars@[start as int]),
            trimmed(chars@.subrange(start as int, end as int)) == trimmed(chars@),
        decreases end - start,
    {
        proof {
            let rest = chars@.subrange(start as int, end as int);
            assert(rest.first() == chars@[start as int]);
            assert(rest.last() == chars@[end - 1]);
            assert(rest.drop_last() =~= chars@.subrange(start as int, end - 1));
        }
        end -= 1;
    }
    proof {
        let rest = chars@.subrange(start as int, end as int);
        if start < end {
            assert(rest.first() == chars@[start as int]);
            assert(rest.last() == chars@[end - 1]);
        }
    }
    (start, end)
}

/// Whether a text holds nothing but white space.
pub fn is_blank(text: &str) -> (r: bool)
    ensures
        r == (trimmed(text@).len() == 0),
{
    let chars = chars_of(text);
    let (start, end) = trim_bounds(&chars);
    start == end
}

/// Appends the decimal digits of a number to a text.
pub(crate) fn push_decimal(text: &mut String, n: u64)
    ensures
        final(text)@ == old(text)@ + decimal_digits(n as nat),
    decreases n,
{
    let digit: u8 = (n % 10) as u8;
    if n >= 10 {
        push_decimal(text, n / 10);
    }
    text.push((48 + digit) as char);
    assert(text@ =~= old(text)@ + decimal_digits(n as nat));
}

} // verus!

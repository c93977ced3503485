//! Numbers and white space in texts.
use vstd::prelude::*;

verus! {

/// The decimal digits of a number are digits, and write the number.
proof fn lemma_decimal_digits(n: nat)
    ensures
        crate::text::decimal_digits(n).len() > 0,
        forall|i: int|
            0 <= i < crate::text::decimal_digits(n).len() ==> '0' <= (#[trigger] crate::text::decimal_digits(n)[i])
                <= '9',
        crate::text::digits_value(crate::text::decimal_digits(n)) == n,
    decreases n,
{
    let digits = crate::text::decimal_digits(n);
    if n < 10 {
        assert(digits.drop_last() =~= Seq::empty());
        assert(digits.last() == (48 + n % 10) as char);
        reveal_with_fuel(crate::text::digits_value, 2);
    } else {
        lemma_decimal_digits(n / 10);
        let rest = crate::text::decimal_digits(n / 10);
        assert(digits.drop_last() =~= rest);
        assert(digits.last() == (48 + n % 10) as char);
    }
}

/// A number that is written in decimal digits is read as it was written, if it fits.
pub proof fn law_decimal_reads_back(n: nat, max: nat)
    ensures
        n <= max ==> crate::text::parsed_unsigned(crate::text::decimal_digits(n), max) == Some(n),
        n > max ==> crate::text::parsed_unsigned(crate::text::decimal_digits(n), max) is None,
{
    lemma_decimal_digits(n);
    let digits = crate::text::decimal_digits(n);
    assert('0' <= digits[0] <= '9');
    assert(digits[0] != '+');
    assert forall|i: int| 0 <= i < digits.len() implies crate::text::is_digit(#[trigger] digits[i]) by {
        assert('0' <= crate::text::decimal_digits(n)[i] <= '9');
    }
}

/// A number is written without leading zeros, and zero with one.
pub proof fn law_no_leading_zeros(n: nat)
    ensures
        n > 0 ==> crate::text::decimal_digits(n)[0] != '0',
        n < 10 ==> crate::text::decimal_digits(n).len() == 1,
        n >= 10 ==> crate::text::decimal_digits(n).len() == crate::text::decimal_digits(n / 10).len() + 1,
    decreases n,
{
    if n >= 10 {
        law_no_leading_zeros(n / 10);
        lemma_decimal_digits(n / 10);
        assert(crate::text::decimal_digits(n)[0] == crate::text::decimal_digits(n / 10)[0]);
    }
}

/// Different numbers are written differently.
pub proof fn law_decimal_digits_differ(a: nat, b: nat)
    requires
        a != b,
    ensures
        crate::text::decimal_digits(a) != crate::text::decimal_digits(b),
{
    lemma_decimal_digits(a);
    lemma_decimal_digits(b);
}

/// A text that is read as a number is not empty, its first char is a digit or a plus sign, all
/// others are digits, and the number fits.
pub proof fn law_only_digits_are_read(text: Seq<char>, max: nat)
    ensures
        crate::text::parsed_unsigned(text, max) matches Some(n) ==> {
            &&& n <= max
            &&& text.len() > 0
            &&& text[0] == '+' || '0' <= text[0] <= '9'
            &&& text[0] == '+' ==> text.len() > 1
            &&& forall|i: int| 1 <= i < text.len() ==> '0' <= (#[trigger] text[i]) <= '9'
        },
{
    if crate::text::parsed_unsigned(text, max) is Some {
        if text.len() > 0 && text[0] == '+' {
            let digits = text.drop_first();
            assert(crate::text::parsed_unsigned(text, max) == Some(crate::text::digits_value(digits)));
            assert forall|i: int| 1 <= i < text.len() implies '0' <= (#[trigger] text[i]) <= '9' by {
                assert(text[i] == digits[i - 1]);
                assert(crate::text::is_digit(digits[i - 1]));
            }
        } else {
            assert(crate::text::is_digit(text[0]));
            assert forall|i: int| 1 <= i < text.len() implies '0' <= (#[trigger] text[i]) <= '9' by {
                assert(crate::text::is_digit(text[i]));
            }
        }
    }
}

/// One or more digits are read as the number that they write, with a plus sign before them or
/// without, if it fits.
pub proof fn law_digits_are_read(digits: Seq<char>, max: nat)
    requires
        digits.len() > 0,
        forall|i: int| 0 <= i < digits.len() ==> '0' <= (#[trigger] digits[i]) <= '9',
    ensures
        crate::text::digits_value(digits) <= max ==> crate::text::parsed_unsigned(digits, max) == Some(
            crate::text::digits_value(digits),
        ),
        crate::text::digits_value(digits) > max ==> crate::text::parsed_unsigned(digits, max) is None,
        crate::text::parsed_unsigned(seq!['+'] + digits, max) == crate::text::parsed_unsigned(digits, max),
{
    let signed = seq!['+'] + digits;
    assert(signed[0] == '+');
    assert(signed.drop_first() =~= digits);
    assert('0' <= digits[0] <= '9');
    assert forall|i: int| 0 <= i < digits.len() implies crate::text::is_digit(#[trigger] digits[i]) by {}
}

/// One more digit makes ten times the number and the digit.
pub proof fn law_digit_by_digit(digits: Seq<char>, digit: char)
    requires
        '0' <= digit <= '9',
    ensures
        crate::text::digits_value(digits.push(digit)) == 10 * crate::text::digits_value(digits) + (digit as nat - 48),
        crate::text::digits_value(Seq::empty()) == 0,
{
    assert(digits.push(digit).drop_last() =~= digits);
}

/// Where the trimmed text starts and ends in the text.
proof fn lemma_trimmed(text: Seq<char>) -> (bounds: (int, int))
    ensures
        0 <= bounds.0 <= bounds.1 <= text.len(),
        crate::text::trimmed(text) == text.subrange(bounds.0, bounds.1),
        forall|i: int| 0 <= i < bounds.0 ==> crate::text::is_white_space(#[trigger] text[i]),
        forall|i: int| bounds.1 <= i < text.len() ==> crate::text::is_white_space(#[trigger] text[i]),
        bounds.0 < bounds.1 ==> !crate::text::is_white_space(text[bounds.0]) && !crate::text::is_white_space(
            text[bounds.1 - 1],
        ),
    decreases text.len(),
{
    if text.len() > 0 && crate::text::is_white_space(text.first()) {
        let rest = text.drop_first();
        let (start, end) = lemma_trimmed(rest);
        assert(rest.subrange(start, end) =~= text.subrange(start + 1, end + 1));
        assert forall|i: int| 0 <= i < start + 1 implies crate::text::is_white_space(#[trigger] text[i]) by {
            if i > 0 {
                assert(text[i] == rest[i - 1]);
            }
        }
        assert forall|i: int| end + 1 <= i < text.len() implies crate::text::is_white_space(#[trigger] text[i]) by {
            assert(text[i] == rest[i - 1]);
        }
        (start + 1, end + 1)
    } else if text.len() > 0 && crate::text::is_white_space(text.last()) {
        let rest = text.drop_last();
        let (start, end) = lemma_trimmed(rest);
        assert(rest.subrange(start, end) =~= text.subrange(start, end));
        assert forall|i: int| 0 <= i < start implies crate::text::is_white_space(#[trigger] text[i]) by {
            assert(text[i] == rest[i]);
        }
        assert forall|i: int| end <= i < text.len() implies crate::text::is_white_space(#[trigger] text[i]) by {
            if i < rest.len() {
                assert(text[i] == rest[i]);
            }
        }
        (start, end)
    } else {
        assert(text.subrange(0, text.len() as int) =~= text);
        (0, text.len() as int)
    }
}

/// A trimmed text is a part of the text: what is left out before and behind it is white space,
/// and it neither starts nor ends with any.
pub proof fn law_trimmed_is_the_middle(text: Seq<char>)
    ensures
        exists|start: int, end: int|
            #![trigger text.subrange(start, end)]
            {
                &&& 0 <= start <= end <= text.len()
                &&& crate::text::trimmed(text) == text.subrange(start, end)
                &&& forall|i: int| 0 <= i < start ==> crate::text::is_white_space(#[trigger] text[i])
                &&& forall|i: int| end <= i < text.len() ==> crate::text::is_white_space(#[trigger] text[i])
            },
        crate::text::trimmed(text).len() > 0 ==> {
            &&& !crate::text::is_white_space(crate::text::trimmed(text)[0])
            &&& !crate::text::is_white_space(crate::text::trimmed(text).last())
        },
{
    let (start, end) = lemma_trimmed(text);
    assert(crate::text::trimmed(text) == text.subrange(start, end));
}

/// A space, a tab and a line break are white space; a letter, a digit and a sign are not.
pub proof fn law_white_space(c: char)
    ensures
        c == ' ' || c == '\t' || c == '\n' || c == '\r' ==> crate::text::is_white_space(c),
        '!' <= c <= '~' ==> !crate::text::is_white_space(c),
{
}

} // verus!

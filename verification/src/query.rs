//! Reading the year off the text of a date.
//!
//! A date is written with its year first and a hyphen after it, as in
//! `2025-01-31`; the year is a plain decimal number with an optional plus
//! sign.

use vstd::prelude::*;
use vstd::string::StrSliceExecFns;

verus! {

/// The year that is used where the text of a date gives none.
pub const DEFAULT_YEAR: i32 = 2025;

/// The place of the first hyphen in the text from `from` on, or the
/// length of the text where there is none.
pub open spec fn hyphen_position(text: Seq<char>, from: int) -> int
    decreases text.len() - from,
{
    if from < 0 || from >= text.len() {
        text.len() as int
    } else if text[from] == '-' {
        from
    } else {
        hyphen_position(text, from + 1)
    }
}

/// The text up to its first hyphen.
pub open spec fn leading_field(text: Seq<char>) -> Seq<char> {
    text.take(hyphen_position(text, 0))
}

/// The value of a decimal digit, and `None` for any other character.
pub open spec fn digit_value(c: char) -> Option<int> {
    if '0' <= c <= '9' {
        Some(c as int - '0' as int)
    } else {
        None
    }
}

/// The number that a run of decimal digits writes; zero for the empty
/// run, and `None` where a character is no digit.
pub open spec fn digits_value(digits: Seq<char>) -> Option<int>
    decreases digits.len(),
{
    if digits.len() == 0 {
        Some(0)
    } else {
        match (digits_value(digits.drop_last()), digit_value(digits.last())) {
            (Some(high), Some(low)) => Some(high * 10 + low),
            _ => None,
        }
    }
}

/// The number that a field writes: one or more decimal digits, with a
/// plus sign before them or without, as long as the number is a 32-bit
/// year.
pub open spec fn field_value(field: Seq<char>) -> Option<int> {
    let digits = if field.len() > 0 && field[0] == '+' {
        field.skip(1)
    } else {
        field
    };
    if digits.len() == 0 {
        None
    } else {
        match digits_value(digits) {
            Some(value) => if value <= i32::MAX {
                Some(value)
            } else {
                None
            },
            None => None,
        }
    }
}

/// The year that the text of a date starts with, and [`DEFAULT_YEAR`]
/// where it starts with none.
pub open spec fn leading_year_spec(text: Seq<char>) -> int {
    match field_value(leading_field(text)) {
        Some(year) => year,
        None => DEFAULT_YEAR as int,
    }
}

/// Reads the year that the text of a date starts with.
///
/// The year is what stands before the first hyphen; where that is no
/// number, the year is [`DEFAULT_YEAR`].
pub fn leading_year(text: &str) -> (year: i32)
    ensures
        year == leading_year_spec(text@),
{
    let len: usize = text.unicode_len();
    let start: usize = if len > 0 && text.get_char(0) == '+' {
        1
    } else {
        0
    };
    let mut i: usize = start;
    let mut value: i64 = 0;
    let mut overflow: bool = false;
    let mut at_hyphen: bool = false;
    proof {
        assert(text@.subrange(start as int, start as int) =~= Seq::<char>::empty());
    }
    while i < len && !at_hyphen
        invariant
            start <= i <= len,
            len == text@.len(),
            start == 0 || start == 1,
            start == 1 ==> text@[0] == '+',
            start == 0 && len > 0 ==> text@[0] != '+',
            forall|k: int| 0 <= k < i ==> text@[k] != '-',
            at_hyphen ==> i < len && text@[i as int] == '-',
            0 <= value <= i32::MAX,
            !overflow ==> digits_value(text@.subrange(start as int, i as int)) == Some(
                value as int,
            ),
            overflow ==> (digits_value(text@.subrange(start as int, i as int)) matches Some(v)
                && v > i32::MAX),
        decreases len - i + if at_hyphen { 0int } else { 1int },
    {
        let c: char = text.get_char(i);
        if c == '-' {
            at_hyphen = true;
        } else if c < '0' || c > '9' {
            proof {
                lemma_no_value_from(text@, start as int, i as int);
            }
            return DEFAULT_YEAR;
        } else {
            proof {
                let prefix = text@.subrange(start as int, i as int + 1);
                assert(prefix.drop_last() =~= text@.subrange(start as int, i as int));
                assert(prefix.last() == c);
            }
            let digit: i64 = (c as u32 - '0' as u32) as i64;
            if !overflow {
                value = value * 10 + digit;
                if value > i32::MAX as i64 {
                    overflow = true;
                    value = 0;
                }
            }
            i = i + 1;
        }
    }
    proof {
        lemma_hyphen_after(text@, 0, i as int);
        assert(hyphen_position(text@, i as int) == i);
        assert(text@.take(i as int).skip(start as int) =~= text@.subrange(start as int, i as int));
        if start == 0 {
            assert(text@.take(i as int) =~= text@.subrange(0, i as int));
        }
    }
    if i == start || overflow {
        DEFAULT_YEAR
    } else {
        value as i32
    }
}

/// A hyphen is not found at a place that holds another character.
proof fn lemma_hyphen_after(text: Seq<char>, from: int, to: int)
    requires
        0 <= from <= to <= text.len(),
        forall|k: int| from <= k < to ==> text[k] != '-',
    ensures
        hyphen_position(text, from) == hyphen_position(text, to),
    decreases to - from,
{
    if from < to {
        lemma_hyphen_after(text, from + 1, to);
    }
}

/// A run of characters with a character in it that is neither a digit
/// nor a hyphen writes no number, however far it goes on to its first
/// hyphen.
proof fn lemma_no_value_from(text: Seq<char>, start: int, at: int)
    requires
        0 <= start <= at < text.len(),
        digit_value(text[at]) is None,
        text[at] != '-',
        forall|k: int| 0 <= k < at ==> text[k] != '-',
        start == 0 || (start == 1 && text[0] == '+'),
        start == 0 ==> text[0] != '+',
    ensures
        field_value(leading_field(text)) is None,
{
    lemma_hyphen_after(text, 0, at + 1);
    let end = hyphen_position(text, 0);
    lemma_hyphen_bounds(text, at + 1);
    let field = text.take(end);
    let digits = if field.len() > 0 && field[0] == '+' {
        field.skip(1)
    } else {
        field
    };
    assert(digits =~= text.subrange(start, end));
    lemma_bad_digit(digits, at - start);
}

/// The first hyphen from a place on lies at or after that place.
proof fn lemma_hyphen_bounds(text: Seq<char>, from: int)
    requires
        0 <= from <= text.len(),
    ensures
        from <= hyphen_position(text, from) <= text.len(),
    decreases text.len() - from,
{
    if from < text.len() && text[from] != '-' {
        lemma_hyphen_bounds(text, from + 1);
    }
}

/// A run with a character that is no digit writes no number.
proof fn lemma_bad_digit(digits: Seq<char>, at: int)
    requires
        0 <= at < digits.len(),
        digit_value(digits[at]) is None,
    ensures
        digits_value(digits) is None,
    decreases digits.len(),
{
    if at < digits.len() - 1 {
        lemma_bad_digit(digits.drop_last(), at);
    }
}

} // verus!

//! Reading a guess from a line of text.
//!
//! A line holds a guess when, with the white space around it removed, it is an
//! optional `+` followed by one or more decimal digits whose value fits in a
//! `u32`. Everything else is a [`ParseError`].

use vstd::prelude::*;

verus! {

/// Why a line holds no guess.
#[derive(Clone, Copy, Debug, PartialEq, Eq, Structural)]
pub enum ParseError {
    /// The line is not an optional `+` followed by decimal digits.
    NotANumber,
    /// The line is a number, but one larger than `u32::MAX`.
    OutOfRange,
}

/// Whether `c` is white space as Unicode defines it (`White_Space`).
pub open spec fn spec_is_whitespace(c: char) -> bool {
    let code = c as u32;
    ||| 0x0009 <= code <= 0x000D
    ||| code == 0x0020
    ||| code == 0x0085
    ||| code == 0x00A0
    ||| code == 0x1680
    ||| 0x2000 <= code <= 0x200A
    ||| code == 0x2028
    ||| code == 0x2029
    ||| code == 0x202F
    ||| code == 0x205F
    ||| code == 0x3000
}

/// Whether `c` is one of the decimal digits `0` to `9`.
pub open spec fn spec_is_digit(c: char) -> bool {
    0x30 <= c as u32 <= 0x39
}

/// The number that the decimal digit `c` stands for; 0 for any other character.
pub open spec fn digit_value(c: char) -> nat {
    if spec_is_digit(c) {
        (c as u32 - 0x30) as nat
    } else {
        0
    }
}

/// `s` without the white space at its start.
pub open spec fn trim_start(s: Seq<char>) -> Seq<char>
    decreases s.len(),
{
    if s.len() > 0 && spec_is_whitespace(s[0]) {
        trim_start(s.subrange(1, s.len() as int))
    } else {
        s
    }
}

/// `s` without the white space at its end.
pub open spec fn trim_end(s: Seq<char>) -> Seq<char>
    decreases s.len(),
{
    if s.len() > 0 && spec_is_whitespace(s.last()) {
        trim_end(s.drop_last())
    } else {
        s
    }
}

/// `s` without the white space at either end.
pub open spec fn trimmed(s: Seq<char>) -> Seq<char> {
    trim_end(trim_start(s))
}

/// `s` without a leading `+`.
pub open spec fn unsigned_part(s: Seq<char>) -> Seq<char> {
    if s.len() > 0 && s[0] == '+' {
        s.subrange(1, s.len() as int)
    } else {
        s
    }
}

/// Whether every character of `s` is a decimal digit.
pub open spec fn all_digits(s: Seq<char>) -> bool {
    forall|i: int| 0 <= i < s.len() ==> spec_is_digit(#[trigger] s[i])
}

/// The number that `s` denotes in base ten, most significant digit first.
pub open spec fn decimal_value(s: Seq<char>) -> nat
    decreases s.len(),
{
    if s.len() == 0 {
        0
    } else {
        10 * decimal_value(s.drop_last()) + digit_value(s.last())
    }
}

/// The number that a string of decimal digits denotes, or the reason why it
/// denotes none: it is empty or holds another character, or the number does
/// not fit in a `u32`.
pub open spec fn number_from_digits(digits: Seq<char>) -> Result<u32, ParseError> {
    if digits.len() == 0 || !all_digits(digits) {
        Err(ParseError::NotANumber)
    } else if decimal_value(digits) > u32::MAX {
        Err(ParseError::OutOfRange)
    } else {
        Ok(decimal_value(digits) as u32)
    }
}

/// The guess that a line holds, or the reason why it holds none.
pub open spec fn parsed_guess(line: Seq<char>) -> Result<u32, ParseError> {
    number_from_digits(unsigned_part(trimmed(line)))
}

/// Removing leading white space cuts `s` at the first character that is none.
proof fn lemma_trim_start_cuts(s: Seq<char>, k: int)
    requires
        0 <= k <= s.len(),
        forall|i: int| 0 <= i < k ==> spec_is_whitespace(#[trigger] s[i]),
        k < s.len() ==> !spec_is_whitespace(s[k]),
    ensures
        trim_start(s) == s.subrange(k, s.len() as int),
    decreases k,
{
    if k == 0 {
        assert(s.subrange(0, s.len() as int) =~= s);
    } else {
        assert(spec_is_whitespace(s[0]));
        let rest = s.subrange(1, s.len() as int);
        assert forall|i: int| 0 <= i < k - 1 implies spec_is_whitespace(#[trigger] rest[i]) by {
            assert(rest[i] == s[i + 1]);
        }
        lemma_trim_start_cuts(rest, k - 1);
        assert(rest.subrange(k - 1, rest.len() as int) =~= s.subrange(k, s.len() as int));
    }
}

/// Removing trailing white space cuts `s` after the last character that is none.
proof fn lemma_trim_end_cuts(s: Seq<char>, k: int)
    requires
        0 <= k <= s.len(),
        forall|i: int| k <= i < s.len() ==> spec_is_whitespace(#[trigger] s[i]),
        k > 0 ==> !spec_is_whitespace(s[k - 1]),
    ensures
        trim_end(s) == s.subrange(0, k),
    decreases s.len() - k,
{
    if k == s.len() {
        assert(s.subrange(0, k) =~= s);
    } else {
        assert(spec_is_whitespace(s.last()));
        let rest = s.drop_last();
        assert forall|i: int| k <= i < rest.len() implies spec_is_whitespace(#[trigger] rest[i]) by {
            assert(rest[i] == s[i]);
        }
        lemma_trim_end_cuts(rest, k);
        assert(rest.subrange(0, k) =~= s.subrange(0, k));
    }
}

/// Whether `c` is white space as Unicode defines it (`White_Space`).
#[verifier::when_used_as_spec(spec_is_whitespace)]
pub fn is_whitespace(c: char) -> (yes: bool)
    ensures
        yes == spec_is_whitespace(c),
{
    let code: u32 = c as u32;
    (0x0009 <= code && code <= 0x000D) || code == 0x0020 || code == 0x0085 || code == 0x00A0
        || code == 0x1680 || (0x2000 <= code && code <= 0x200A) || code == 0x2028 || code
        == 0x2029 || code == 0x202F || code == 0x205F || code == 0x3000
}

/// Whether `c` is one of the decimal digits `0` to `9`.
#[verifier::when_used_as_spec(spec_is_digit)]
pub fn is_digit(c: char) -> (yes: bool)
    ensures
        yes == spec_is_digit(c),
{
    let code: u32 = c as u32;
    0x30 <= code && code <= 0x39
}

/// The characters of `text`, in order.
fn chars_of(text: &str) -> (chars: Vec<char>)
    ensures
        chars@ == text@,
{
    let mut chars: Vec<char> = Vec::new();
    for c in it: text.chars()
        invariant
            it.seq() == text@,
            chars@ == it.seq().take(it.index()),
    {
        chars.push(c);
    }
    chars
}

/// Where `chars` without the white space around it starts and ends.
fn trimmed_bounds(chars: &Vec<char>) -> (bounds: (usize, usize))
    ensures
        bounds.0 <= bounds.1 <= chars.len(),
        trimmed(chars@) == chars@.subrange(bounds.0 as int, bounds.1 as int),
{
    let mut start: usize = 0;
    while start < chars.len() && is_whitespace(chars[start])
        invariant
            start <= chars.len(),
            forall|i: int| 0 <= i < start ==> spec_is_whitespace(#[trigger] chars@[i]),
        decreases chars.len() - start,
    {
        start += 1;
    }
    let mut end: usize = chars.len();
    while end > start && is_whitespace(chars[end - 1])
        invariant
            start <= end <= chars.len(),
            forall|i: int| end <= i < chars.len() ==> spec_is_whitespace(#[trigger] chars@[i]),
        decreases end,
    {
        end -= 1;
    }
    proof {
        let s = chars@;
        let tail = s.subrange(start as int, s.len() as int);
        lemma_trim_start_cuts(s, start as int);
        assert forall|i: int| end - start <= i < tail.len() implies spec_is_whitespace(
            #[trigger] tail[i],
        ) by {
            assert(tail[i] == s[start + i]);
        }
        lemma_trim_end_cuts(tail, end - start);
        assert(tail.subrange(0, end - start) =~= s.subrange(start as int, end as int));
    }
    (start, end)
}

/// Reads the digits `chars[from..to]` as a number.
fn parse_digits(chars: &Vec<char>, from: usize, to: usize) -> (result: Result<u32, ParseError>)
    requires
        from <= to <= chars.len(),
    ensures
        result == number_from_digits(chars@.subrange(from as int, to as int)),
{
    let ghost digits = chars@.subrange(from as int, to as int);
    if from == to {
        return Err(ParseError::NotANumber);
    }
    let mut value: u32 = 0;
    let mut overflow = false;
    let mut i: usize = from;
    while i < to
        invariant
            from <= i <= to <= chars.len(),
            digits == chars@.subrange(from as int, to as int),
            all_digits(digits.subrange(0, i - from)),
            !overflow ==> value == decimal_value(digits.subrange(0, i - from)),
            overflow ==> decimal_value(digits.subrange(0, i - from)) > u32::MAX,
        decreases to - i,
    {
        let c = chars[i];
        let ghost before = digits.subrange(0, i - from);
        let ghost after = digits.subrange(0, i + 1 - from);
        proof {
            assert(after.drop_last() =~= before);
            assert(after.last() == c);
        }
        if !is_digit(c) {
            proof {
                assert(digits[i - from] == c);
            }
            return Err(ParseError::NotANumber);
        }
        proof {
            assert forall|k: int| 0 <= k < after.len() implies spec_is_digit(#[trigger] after[k]) by {
                if k < before.len() {
                    assert(after[k] == before[k]);
                }
            }
        }
        if !overflow {
            let digit: u64 = (c as u32 - 0x30) as u64;
            let next: u64 = value as u64 * 10 + digit;
            if next > u32::MAX as u64 {
                overflow = true;
            } else {
                value = next as u32;
            }
        }
        i += 1;
    }
    proof {
        assert(digits.subrange(0, to - from) =~= digits);
    }
    if overflow {
        Err(ParseError::OutOfRange)
    } else {
        Ok(value)
    }
}

/// Reads a guess from a line of input.
///
/// White space around the number is ignored. The number is written in decimal
/// digits, with an optional `+` in front, and must fit in a `u32`.
pub fn parse_guess(line: &str) -> (result: Result<u32, ParseError>)
    ensures
        result == parsed_guess(line@),
{
    let chars = chars_of(line);
    let (start, end) = trimmed_bounds(&chars);
    let ghost core = chars@.subrange(start as int, end as int);
    if start < end && chars[start] == '+' {
        proof {
            assert(core[0] == chars@[start as int]);
            assert(core.subrange(1, core.len() as int) =~= chars@.subrange(start + 1, end as int));
        }
        parse_digits(&chars, start + 1, end)
    } else {
        proof {
            if start < end {
                assert(core[0] == chars@[start as int]);
            }
        }
        parse_digits(&chars, start, end)
    }
}

} // verus!

//! Small text operations that the rest of the library is built on: decimal
//! numbers, ASCII filtering and trimming.

use vstd::prelude::*;

verus! {

/// `String::push` appends one character.
pub assume_specification[ String::push ](text: &mut String, c: char)
    ensures
        final(text)@ == old(text)@.push(c),
;

/// The character of a decimal digit.
pub open spec fn digit_char(d: int) -> char {
    (d + 48) as char
}

/// The value of a decimal digit character.
pub open spec fn digit_value(c: char) -> int {
    c as int - 48
}

/// Whether `c` is one of `0` to `9`.
pub open spec fn is_digit(c: char) -> bool {
    '0' <= c <= '9'
}

/// The decimal numeral of `n`, without sign or leading zeros.
pub open spec fn decimal_text(n: nat) -> Seq<char>
    decreases n,
{
    if n < 10 {
        seq![digit_char(n as int)]
    } else {
        decimal_text(n / 10).push(digit_char((n % 10) as int))
    }
}

/// The number that a sequence of decimal digits denotes; zero for none.
pub open spec fn decimal_value(digits: Seq<char>) -> nat
    decreases digits.len(),
{
    if digits.len() == 0 {
        0
    } else {
        (decimal_value(digits.drop_last()) * 10 + digit_value(digits.last())) as nat
    }
}

/// Whether every character is a decimal digit.
pub open spec fn all_digits(text: Seq<char>) -> bool {
    forall|i: int| 0 <= i < text.len() ==> is_digit(#[trigger] text[i])
}

/// A numeral's digits: the text without one leading `+`, if it has one.
pub open spec fn unsigned_digits(text: Seq<char>) -> Seq<char> {
    if text.len() > 0 && text[0] == '+' {
        text.drop_first()
    } else {
        text
    }
}

/// The number that `text` denotes as an unsigned 64-bit decimal numeral: an
/// optional `+`, then one or more digits, with a value that fits. `None` for
/// every other text.
pub open spec fn parsed_u64(text: Seq<char>) -> Option<u64> {
    let digits = unsigned_digits(text);
    if digits.len() > 0 && all_digits(digits) && decimal_value(digits) <= u64::MAX {
        Some(decimal_value(digits) as u64)
    } else {
        None
    }
}

/// The value of the digits grows with each digit appended.
pub proof fn lemma_decimal_value_prefix(digits: Seq<char>, n: int)
    requires
        all_digits(digits),
        0 <= n <= digits.len(),
    ensures
        decimal_value(digits.take(n)) <= decimal_value(digits),
    decreases digits.len() - n,
{
    if n < digits.len() {
        let longer = digits.take(n + 1);
        assert(longer.drop_last() == digits.take(n));
        lemma_decimal_value_prefix(digits, n + 1);
    } else {
        assert(digits.take(n) == digits);
    }
}

/// Writes `n` in decimal.
pub fn decimal(n: u64) -> (text: String)
    ensures
        text@ == decimal_text(n as nat),
    decreases n,
{
    let digit: char = ((n % 10) as u8 + 48u8) as char;
    if n < 10 {
        let mut text = String::new();
        text.push(digit);
        text
    } else {
        let mut text = decimal(n / 10);
        text.push(digit);
        text
    }
}

/// The characters of a text, one by one.
pub fn to_chars(text: &str) -> (chars: Vec<char>)
    ensures
        chars@ == text@,
{
    let mut chars: Vec<char> = Vec::new();
    for c in it: text.chars()
        invariant
            it.seq() == text@,
            chars@ == it.seq().take(it.index() as int),
    {
        chars.push(c);
    }
    chars
}

/// The text that a sequence of characters spells.
pub fn from_chars(chars: &[char]) -> (text: String)
    ensures
        text@ == chars@,
{
    let mut text = String::new();
    let mut i: usize = 0;
    while i < chars.len()
        invariant
            i <= chars.len(),
            text@ == chars@.take(i as int),
        decreases chars.len() - i,
    {
        text.push(chars[i]);
        i += 1;
    }
    text
}

/// Reads an unsigned 64-bit decimal numeral.
pub fn parse_u64(text: &str) -> (r: Option<u64>)
    ensures
        r == parsed_u64(text@),
{
    let chars = to_chars(text);
    let start: usize = if chars.len() > 0 && chars[0] == '+' {
        1
    } else {
        0
    };
    let ghost digits = unsigned_digits(text@);
    if start == chars.len() {
        return None;
    }
    let mut value: u64 = 0;
    let mut i: usize = start;
    while i < chars.len()
        invariant
            start <= i <= chars.len(),
            digits == unsigned_digits(text@),
            digits == chars@.subrange(start as int, chars.len() as int),
            all_digits(digits.take(i - start)),
            value == decimal_value(digits.take(i - start)),
        decreases chars.len() - i,
    {
        let c = chars[i];
        let ghost seen = digits.take(i - start);
        let ghost longer = digits.take(i - start + 1);
        assert(longer.drop_last() == seen);
        if !(c >= '0' && c <= '9') {
            assert(!is_digit(digits[i - start]));
            return None;
        }
        assert(all_digits(longer));
        let d: u64 = (c as u32 - 48u32) as u64;
        let grown = match value.checked_mul(10) {
            None => None,
            Some(tens) => tens.checked_add(d),
        };
        match grown {
            None => {
                proof {
                    if all_digits(digits) {
                        lemma_decimal_value_prefix(digits, i - start + 1);
                    }
                }
                return None;
            },
            Some(next) => {
                value = next;
            },
        }
        i += 1;
    }
    assert(digits.take(chars.len() - start) == digits);
    Some(value)
}

/// Whether `c` is an ASCII character.
pub open spec fn is_ascii(c: char) -> bool {
    (c as u32) < 128
}

/// The test that [`ascii_only`] filters by.
pub open spec fn ascii() -> spec_fn(char) -> bool {
    |c: char| is_ascii(c)
}

/// The ASCII characters of a text, in their order.
pub open spec fn ascii_only(text: Seq<char>) -> Seq<char> {
    text.filter(ascii())
}

/// Whether `c` is ASCII white space: a blank, or one of the five controls from
/// tab to carriage return.
pub open spec fn is_space(c: char) -> bool {
    c == ' ' || ('\t' <= c <= '\r')
}

/// A text without the white space at its end.
pub open spec fn trimmed_end(text: Seq<char>) -> Seq<char>
    decreases text.len(),
{
    if text.len() > 0 && is_space(text.last()) {
        trimmed_end(text.drop_last())
    } else {
        text
    }
}

/// A text without the white space at its start.
pub open spec fn trimmed_start(text: Seq<char>) -> Seq<char>
    decreases text.len(),
{
    if text.len() > 0 && is_space(text.first()) {
        trimmed_start(text.drop_first())
    } else {
        text
    }
}

/// A text without the white space at either end.
pub open spec fn trimmed(text: Seq<char>) -> Seq<char> {
    trimmed_start(trimmed_end(text))
}

/// Whether a text neither starts nor ends with white space.
pub open spec fn tidy(text: Seq<char>) -> bool {
    text.len() > 0 ==> !is_space(text.first()) && !is_space(text.last())
}

/// Whether every character of a text is ASCII.
pub open spec fn all_ascii(text: Seq<char>) -> bool {
    forall|i: int| 0 <= i < text.len() ==> is_ascii(#[trigger] text[i])
}

/// Filtering leaves only ASCII characters, and leaves a text of ASCII
/// characters as it is.
pub proof fn lemma_ascii_only(text: Seq<char>)
    ensures
        all_ascii(ascii_only(text)),
        all_ascii(text) ==> ascii_only(text) == text,
    decreases text.len(),
{
    reveal(Seq::filter);
    if text.len() > 0 {
        lemma_ascii_only(text.drop_last());
    }
}

/// What is trimmed from the end is a prefix that does not end in white
/// space.
pub proof fn lemma_trimmed_end(text: Seq<char>)
    ensures
        trimmed_end(text).len() <= text.len(),
        trimmed_end(text) == text.take(trimmed_end(text).len() as int),
        trimmed_end(text).len() > 0 ==> !is_space(trimmed_end(text).last()),
    decreases text.len(),
{
    if text.len() > 0 && is_space(text.last()) {
        lemma_trimmed_end(text.drop_last());
    }
}

/// What is trimmed from the start is a suffix that does not start with white
/// space.
pub proof fn lemma_trimmed_start(text: Seq<char>)
    ensures
        trimmed_start(text).len() <= text.len(),
        trimmed_start(text) == text.skip(text.len() - trimmed_start(text).len()),
        trimmed_start(text).len() > 0 ==> !is_space(trimmed_start(text).first()),
    decreases text.len(),
{
    if text.len() > 0 && is_space(text.first()) {
        lemma_trimmed_start(text.drop_first());
    }
}

/// A trimmed text is a stretch of the text it was made from, is tidy, and
/// trimming it again changes nothing.
pub proof fn lemma_trimmed(text: Seq<char>)
    ensures
        tidy(trimmed(text)),
        trimmed(trimmed(text)) == trimmed(text),
        all_ascii(text) ==> all_ascii(trimmed(text)),
{
    lemma_trimmed_end(text);
    let head = trimmed_end(text);
    lemma_trimmed_start(head);
    let core = trimmed(text);
    lemma_tidy_is_trimmed(core);
    if all_ascii(text) {
        assert forall|i: int| 0 <= i < core.len() implies is_ascii(#[trigger] core[i]) by {
            assert(core[i] == text[i + head.len() - core.len()]);
        }
    }
}

/// Trimming changes nothing in a tidy text.
pub proof fn lemma_tidy_is_trimmed(text: Seq<char>)
    requires
        tidy(text),
    ensures
        trimmed(text) == text,
{
}

/// A blank appended to a tidy text is trimmed away again.
pub proof fn lemma_trailing_blank_is_trimmed(text: Seq<char>)
    requires
        tidy(text),
    ensures
        trimmed(text.push(' ')) == text,
{
    let padded = text.push(' ');
    assert(padded.drop_last() == text);
    assert(trimmed_end(padded) == trimmed_end(text));
}

/// Whether a character is ASCII.
pub fn char_is_ascii(c: char) -> (r: bool)
    ensures
        r == is_ascii(c),
{
    (c as u32) < 128
}

/// Whether a character is ASCII white space.
pub fn char_is_space(c: char) -> (r: bool)
    ensures
        r == is_space(c),
{
    c == ' ' || (c >= '\t' && c <= '\r')
}

/// Drops every character that is not ASCII.
pub fn keep_ascii(chars: &[char]) -> (kept: Vec<char>)
    ensures
        kept@ == ascii_only(chars@),
{
    let mut kept: Vec<char> = Vec::new();
    let mut i: usize = 0;
    proof {
        reveal(Seq::filter);
    }
    while i < chars.len()
        invariant
            i <= chars.len(),
            kept@ == ascii_only(chars@.take(i as int)),
        decreases chars.len() - i,
    {
        let c = chars[i];
        proof {
            reveal(Seq::filter);
            let longer = chars@.take(i + 1);
            assert(longer.drop_last() == chars@.take(i as int));
        }
        if char_is_ascii(c) {
            kept.push(c);
        }
        i += 1;
    }
    assert(chars@.take(chars.len() as int) == chars@);
    kept
}

/// Drops the white space at both ends.
pub fn trim(chars: &[char]) -> (core: Vec<char>)
    ensures
        core@ == trimmed(chars@),
{
    let mut end: usize = chars.len();
    assert(chars@.take(end as int) == chars@);
    while end > 0 && char_is_space(chars[end - 1])
        invariant
            end <= chars.len(),
            trimmed_end(chars@) == trimmed_end(chars@.take(end as int)),
        decreases end,
    {
        assert(chars@.take(end as int).drop_last() == chars@.take(end - 1));
        end -= 1;
    }
    let mut start: usize = 0;
    while start < end && char_is_space(chars[start])
        invariant
            start <= end <= chars.len(),
            trimmed(chars@) == trimmed_start(chars@.subrange(start as int, end as int)),
        decreases end - start,
    {
        assert(chars@.subrange(start as int, end as int).drop_first() == chars@.subrange(
            start + 1,
            end as int,
        ));
        start += 1;
    }
    vstd::slice::slice_to_vec(vstd::slice::slice_subrange(chars, start, end))
}

} // verus!

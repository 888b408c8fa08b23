//! Finding the first hexadecimal literal of a text.

use vstd::prelude::*;
use vstd::string::StrSliceExecFns;

verus! {

/// The pattern of a hexadecimal literal: `0x` followed by at least one
/// hexadecimal digit.
pub const HEX_PATTERN: &'static str = "0x[[:xdigit:]]+";

/// Whether `c` is one of `0-9`, `a-f`, `A-F`.
pub open spec fn is_hex_digit(c: char) -> bool {
    ('0' <= c && c <= '9') || ('a' <= c && c <= 'f') || ('A' <= c && c <= 'F')
}

/// Whether a literal begins at position `i` of `text`: a `0`, an `x` and at
/// least one hexadecimal digit.
pub open spec fn literal_starts_at(text: Seq<char>, i: int) -> bool {
    &&& 0 <= i
    &&& i + 2 < text.len()
    &&& text[i] == '0'
    &&& text[i + 1] == 'x'
    &&& is_hex_digit(text[i + 2])
}

/// Whether `text[i..j]` is the leftmost literal of `text`, taken as far to the
/// right as its digits reach.
pub open spec fn is_first_literal(text: Seq<char>, i: int, j: int) -> bool {
    &&& literal_starts_at(text, i)
    &&& forall|k: int| 0 <= k < i ==> !literal_starts_at(text, k)
    &&& i + 2 < j <= text.len()
    &&& forall|k: int| i + 2 <= k < j ==> is_hex_digit(#[trigger] text[k])
    &&& (j == text.len() || !is_hex_digit(text[j]))
}

/// Whether `code` as a whole is a literal: `0x` and then digits only.
pub open spec fn is_hex_literal(code: Seq<char>) -> bool {
    &&& code.len() >= 3
    &&& code[0] == '0'
    &&& code[1] == 'x'
    &&& forall|k: int| 2 <= k < code.len() ==> is_hex_digit(#[trigger] code[k])
}

/// Whether `text` holds a literal anywhere.
pub open spec fn has_literal(text: Seq<char>) -> bool {
    exists|i: int| literal_starts_at(text, i)
}

/// The position at which the leftmost literal of `text` begins.
pub open spec fn first_start(text: Seq<char>) -> int {
    choose|i: int|
        literal_starts_at(text, i) && forall|k: int| 0 <= k < i ==> !literal_starts_at(text, k)
}

/// The end of the run of hexadecimal digits that begins at `from`.
pub open spec fn digits_end(text: Seq<char>, from: int) -> int
    decreases text.len() - from,
{
    if 0 <= from < text.len() && is_hex_digit(text[from]) {
        digits_end(text, from + 1)
    } else {
        from
    }
}

/// The leftmost literal of `text` with all its digits, if there is one.
pub open spec fn first_hex_literal(text: Seq<char>) -> Option<Seq<char>> {
    if has_literal(text) {
        let i = first_start(text);
        Some(text.subrange(i, digits_end(text, i + 2)))
    } else {
        None
    }
}

/// A run of digits that stops at `j` ends at `j`.
proof fn lemma_digits_end(text: Seq<char>, from: int, j: int)
    requires
        0 <= from <= j <= text.len(),
        forall|k: int| from <= k < j ==> is_hex_digit(#[trigger] text[k]),
        j == text.len() || !is_hex_digit(text[j]),
    ensures
        digits_end(text, from) == j,
    decreases j - from,
{
    if from < j {
        lemma_digits_end(text, from + 1, j);
    }
}

/// The run of digits from `from` stays inside the text and holds digits only.
proof fn lemma_digits_end_run(text: Seq<char>, from: int)
    requires
        0 <= from <= text.len(),
    ensures
        from <= digits_end(text, from) <= text.len(),
        forall|k: int| from <= k < digits_end(text, from) ==> is_hex_digit(#[trigger] text[k]),
        digits_end(text, from) == text.len() || !is_hex_digit(text[digits_end(text, from)]),
    decreases text.len() - from,
{
    if from < text.len() && is_hex_digit(text[from]) {
        lemma_digits_end_run(text, from + 1);
    }
}

/// Where a literal starts somewhere, one starts leftmost.
proof fn lemma_leftmost_exists(text: Seq<char>, i: int)
    requires
        literal_starts_at(text, i),
    ensures
        literal_starts_at(text, first_start(text)),
        forall|k: int| 0 <= k < first_start(text) ==> !literal_starts_at(text, k),
        first_start(text) <= i,
    decreases i,
{
    if exists|k: int| 0 <= k < i && literal_starts_at(text, k) {
        let k = choose|k: int| 0 <= k < i && literal_starts_at(text, k);
        lemma_leftmost_exists(text, k);
    } else {
        assert(literal_starts_at(text, i) && forall|k: int|
            0 <= k < i ==> !literal_starts_at(text, k));
    }
    let f = first_start(text);
    if f > i {
        assert(!literal_starts_at(text, i));
    }
}

/// The leftmost literal is the one and only first literal: it begins where no
/// literal begins before it, and it ends where its digits end.
pub proof fn lemma_first_literal_is_leftmost(text: Seq<char>)
    ensures
        match first_hex_literal(text) {
            Some(code) => {
                &&& is_hex_literal(code)
                &&& exists|i: int, j: int|
                    is_first_literal(text, i, j) && code == #[trigger] text.subrange(i, j)
            },
            None => forall|i: int| !literal_starts_at(text, i),
        },
{
    if has_literal(text) {
        let w = choose|i: int| literal_starts_at(text, i);
        lemma_leftmost_exists(text, w);
        let i = first_start(text);
        let j = digits_end(text, i + 2);
        lemma_digits_end_run(text, i + 2);
        lemma_digits_end_run(text, i + 3);
        assert(digits_end(text, i + 2) == digits_end(text, i + 3));
        assert(is_first_literal(text, i, j));
        let code = text.subrange(i, j);
        assert forall|k: int| 2 <= k < code.len() implies is_hex_digit(#[trigger] code[k]) by {
            assert(code[k] == text[i + k]);
        }
    }
}

/// Any first literal of `text` is the one that `first_hex_literal` names.
pub proof fn lemma_first_literal_unique(text: Seq<char>, i: int, j: int)
    requires
        is_first_literal(text, i, j),
    ensures
        first_hex_literal(text) == Some(text.subrange(i, j)),
{
    lemma_leftmost_exists(text, i);
    let f = first_start(text);
    assert(f == i) by {
        if f < i {
            assert(!literal_starts_at(text, f));
        }
    }
    lemma_digits_end(text, i + 2, j);
}

/// Calls `regex::Regex::new` on the pattern and `Regex::find` on the text,
/// and hands back the matched substring. For the pattern of a hexadecimal
/// literal the contract states the crate's documented leftmost-first, greedy
/// search: the match begins at the first position where `0x` and a digit
/// stand, and runs to the end of the digits; there is none exactly where no
/// such position exists.
#[verifier::external_body]
fn regex_find(pattern: &str, text: &str) -> (found: Option<String>)
    requires
        pattern@ == HEX_PATTERN@,
    ensures
        match found {
            Some(m) => exists|i: int, j: int|
                is_first_literal(text@, i, j) && m@ == #[trigger] text@.subrange(i, j),
            None => forall|i: int| !literal_starts_at(text@, i),
        },
{
    regex::Regex::new(pattern).ok().and_then(|re| re.find(text).map(|m| m.as_str().to_string()))
}

/// Returns the first hexadecimal literal of `text`, with its `0x`, or nothing
/// where the text holds none.
pub fn extract_hex_code(text: &str) -> (code: Option<String>)
    ensures
        match code {
            Some(c) => first_hex_literal(text@) == Some(c@) && is_hex_literal(c@),
            None => first_hex_literal(text@) is None,
        },
{
    let found = regex_find(HEX_PATTERN, text);
    proof {
        match &found {
            Some(m) => {
                let (i, j) = choose|i: int, j: int|
                    is_first_literal(text@, i, j) && m@ == #[trigger] text@.subrange(i, j);
                lemma_first_literal_unique(text@, i, j);
                lemma_first_literal_is_leftmost(text@);
            },
            None => {},
        }
    }
    found
}

/// Tells whether `c` is a hexadecimal digit.
pub fn is_hex_digit_char(c: char) -> (digit: bool)
    ensures
        digit == is_hex_digit(c),
{
    ('0' <= c && c <= '9') || ('a' <= c && c <= 'f') || ('A' <= c && c <= 'F')
}

/// Tells whether `code` as a whole is a hexadecimal literal.
pub fn is_hex_code(code: &str) -> (literal: bool)
    ensures
        literal == is_hex_literal(code@),
{
    let n: usize = code.unicode_len();
    if n < 3 {
        return false;
    }
    if code.get_char(0) != '0' || code.get_char(1) != 'x' {
        return false;
    }
    let mut k: usize = 2;
    while k < n
        invariant
            n == code@.len(),
            2 <= k <= n,
            forall|m: int| 2 <= m < k ==> is_hex_digit(#[trigger] code@[m]),
        decreases n - k,
    {
        if !is_hex_digit_char(code.get_char(k)) {
            return false;
        }
        k = k + 1;
    }
    true
}

} // verus!

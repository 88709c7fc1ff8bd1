//! Guessing the type of a column from one sample cell.
//!
//! A sample is classified by the first rule that fits, in this order: a
//! base-10 integer that fits 64 signed bits, a floating-point literal, the
//! words `true` and `false` in any case, a calendar date, an RFC 3339
//! timestamp, and text for everything else. Timestamps are classified as
//! dates: the inference never answers `DateTime`.

use vstd::prelude::*;
use vstd::string::*;
use crate::chars::{digit_value, is_digit, to_chars};
use crate::model::{DataType, DataTypeView};

verus! {

/// Whether `c` has the Unicode property White_Space.
pub open spec fn is_white_space(c: char) -> bool {
    ||| '\u{9}' <= c <= '\u{D}'
    ||| c == ' '
    ||| c == '\u{85}'
    ||| c == '\u{A0}'
    ||| c == '\u{1680}'
    ||| '\u{2000}' <= c <= '\u{200A}'
    ||| c == '\u{2028}'
    ||| c == '\u{2029}'
    ||| c == '\u{202F}'
    ||| c == '\u{205F}'
    ||| c == '\u{3000}'
}

/// How many white-space characters stand in a row from position `from` on.
pub open spec fn space_run(s: Seq<char>, from: int) -> int
    decreases s.len() - from,
{
    if 0 <= from < s.len() && is_white_space(s[from]) {
        1 + space_run(s, from + 1)
    } else {
        0
    }
}

/// How many white-space characters stand in a row just before position `end`.
pub open spec fn space_run_back(s: Seq<char>, end: int) -> int
    decreases end,
{
    if 0 < end <= s.len() && is_white_space(s[end - 1]) {
        1 + space_run_back(s, end - 1)
    } else {
        0
    }
}

/// The text without its leading and trailing white space.
pub open spec fn trimmed(s: Seq<char>) -> Seq<char> {
    let start = space_run(s, 0);
    if start >= s.len() {
        Seq::empty()
    } else {
        s.subrange(start, s.len() - space_run_back(s, s.len() as int))
    }
}

/// How many decimal digits stand in a row from position `from` on.
pub open spec fn digit_run(s: Seq<char>, from: int) -> int
    decreases s.len() - from,
{
    if 0 <= from < s.len() && is_digit(s[from]) {
        1 + digit_run(s, from + 1)
    } else {
        0
    }
}

/// Whether `c` is a plus or a minus sign.
pub open spec fn is_sign(c: char) -> bool {
    c == '+' || c == '-'
}

/// Where the digits start: after one leading sign, if there is one.
pub open spec fn after_sign(s: Seq<char>) -> int {
    if s.len() > 0 && is_sign(s[0]) {
        1
    } else {
        0
    }
}

/// The number written by a sequence of decimal digits.
pub open spec fn decimal_value(s: Seq<char>) -> int
    decreases s.len(),
{
    if s.len() == 0 {
        0
    } else {
        decimal_value(s.drop_last()) * 10 + digit_value(s.last())
    }
}

/// An optional sign, then one or more digits and nothing else, for a number
/// from -2^63 to 2^63 - 1.
pub open spec fn is_integer_text(s: Seq<char>) -> bool {
    let start = after_sign(s);
    let digits = s.subrange(start, s.len() as int);
    &&& digits.len() > 0
    &&& digit_run(s, start) == digits.len()
    &&& if s[0] == '-' {
        decimal_value(digits) <= 0x8000_0000_0000_0000
    } else {
        decimal_value(digits) <= 0x7fff_ffff_ffff_ffff
    }
}

/// The lower-case form of an ASCII capital; every other character as it is.
pub open spec fn ascii_lower(c: char) -> char {
    if 'A' <= c <= 'Z' {
        ((c as u8) + 32) as char
    } else {
        c
    }
}

/// Whether the part of `s` from `from` on is `word`, ASCII case ignored.
pub open spec fn is_word_at(s: Seq<char>, from: int, word: Seq<char>) -> bool {
    &&& 0 <= from
    &&& s.len() - from == word.len()
    &&& forall|i: int|
        0 <= i < word.len() ==> ascii_lower(#[trigger] s[from + i]) == ascii_lower(word[i])
}

/// An exponent from `from` to the end: `e` or `E`, an optional sign, and one
/// or more digits.
pub open spec fn is_exponent_at(s: Seq<char>, from: int) -> bool {
    &&& 0 <= from < s.len()
    &&& (s[from] == 'e' || s[from] == 'E')
    &&& {
        let digits = if from + 1 < s.len() && is_sign(s[from + 1]) {
            from + 2
        } else {
            from + 1
        };
        digits < s.len() && digits + digit_run(s, digits) == s.len()
    }
}

/// A decimal number from `from` to the end: digits with at most one point
/// among them, at least one digit in all, and an optional exponent.
pub open spec fn is_number_at(s: Seq<char>, from: int) -> bool {
    let whole = digit_run(s, from);
    let point = from + whole;
    let has_point = point < s.len() && s[point] == '.';
    let fraction = if has_point {
        digit_run(s, point + 1)
    } else {
        0
    };
    let end = if has_point {
        point + 1 + fraction
    } else {
        point
    };
    &&& whole + fraction >= 1
    &&& (end == s.len() || is_exponent_at(s, end))
}

/// A floating-point literal: an optional sign, then a decimal number or one
/// of the words `inf`, `infinity` and `nan` in any case.
pub open spec fn is_float_text(s: Seq<char>) -> bool {
    let start = after_sign(s);
    ||| is_number_at(s, start)
    ||| is_word_at(s, start, "inf"@)
    ||| is_word_at(s, start, "infinity"@)
    ||| is_word_at(s, start, "nan"@)
}

/// The words `true` and `false`, in any case.
pub open spec fn is_boolean_text(s: Seq<char>) -> bool {
    is_word_at(s, 0, "true"@) || is_word_at(s, 0, "false"@)
}

/// How a calendar date is written: year, month and day, with hyphens
/// between them.
pub open spec fn date_pattern() -> Seq<char> {
    "%Y-%m-%d"@
}

/// Whether chrono reads `text` as a date written after `pattern`.
pub uninterp spec fn reads_as_date(text: Seq<char>, pattern: Seq<char>) -> bool;

/// Whether chrono reads `text` as an RFC 3339 date and time.
pub uninterp spec fn reads_as_timestamp(text: Seq<char>) -> bool;

/// The type of a trimmed sample, given what the two date readers said of it.
pub open spec fn classified(text: Seq<char>, date: bool, timestamp: bool) -> DataTypeView {
    if is_integer_text(text) {
        DataTypeView::Integer
    } else if is_float_text(text) {
        DataTypeView::Float
    } else if is_boolean_text(text) {
        DataTypeView::Boolean
    } else if date || timestamp {
        DataTypeView::Date
    } else {
        DataTypeView::Text
    }
}

/// The type inferred for a raw sample.
pub open spec fn inferred(sample: Seq<char>) -> DataTypeView {
    let text = trimmed(sample);
    classified(text, reads_as_date(text, date_pattern()), reads_as_timestamp(text))
}

/// Asks chrono's `NaiveDate::parse_from_str` whether `text` is a date written
/// after `pattern`. Only the pattern of a calendar date is admitted. The
/// answer depends on text and pattern alone; nothing more is claimed of it.
#[verifier::external_body]
fn date_accepted(text: &str, pattern: &str) -> (r: bool)
    requires
        pattern@ == date_pattern(),
    ensures
        r == reads_as_date(text@, pattern@),
{
    chrono::NaiveDate::parse_from_str(text, pattern).is_ok()
}

/// Asks chrono's `DateTime::parse_from_rfc3339` whether `text` is an RFC 3339
/// date and time. The answer depends on the text alone; nothing more is
/// claimed of it.
#[verifier::external_body]
fn timestamp_accepted(text: &str) -> (r: bool)
    ensures
        r == reads_as_timestamp(text@),
{
    chrono::DateTime::parse_from_rfc3339(text).is_ok()
}

/// Whether `c` is white space.
fn is_space(c: char) -> (r: bool)
    ensures
        r == is_white_space(c),
{
    ('\u{9}' <= c && c <= '\u{D}') || c == ' ' || c == '\u{85}' || c == '\u{A0}' || c
        == '\u{1680}' || ('\u{2000}' <= c && c <= '\u{200A}') || c == '\u{2028}' || c
        == '\u{2029}' || c == '\u{202F}' || c == '\u{205F}' || c == '\u{3000}'
}

/// Removes leading and trailing white space.
pub fn trim(s: &str) -> (r: &str)
    ensures
        r@ == trimmed(s@),
{
    let v = to_chars(s);
    let n = v.len();
    let mut start: usize = 0;
    while start < n && is_space(v[start])
        invariant
            0 <= start <= n,
            n == v@.len(),
            space_run(v@, 0) == start + space_run(v@, start as int),
        decreases n - start,
    {
        start += 1;
    }
    if start == n {
        return s.substring_char(0, 0);
    }
    let mut end: usize = n;
    while end > start && is_space(v[end - 1])
        invariant
            start < end <= n,
            n == v@.len(),
            space_run_back(v@, n as int) == (n - end) + space_run_back(v@, end as int),
            !is_white_space(v@[start as int]),
        decreases end,
    {
        end -= 1;
    }
    s.substring_char(start, end)
}

/// The end of the run of digits that starts at `from`.
fn skip_digits(v: &Vec<char>, from: usize) -> (end: usize)
    requires
        from <= v@.len(),
    ensures
        from <= end <= v@.len(),
        end - from == digit_run(v@, from as int),
{
    let mut i = from;
    while i < v.len() && '0' <= v[i] && v[i] <= '9'
        invariant
            from <= i <= v@.len(),
            digit_run(v@, from as int) == (i - from) + digit_run(v@, i as int),
        decreases v@.len() - i,
    {
        i += 1;
    }
    i
}

/// Where the digits start: after one leading sign, if there is one.
fn has_sign(v: &Vec<char>) -> (start: usize)
    ensures
        start == after_sign(v@),
{
    if v.len() > 0 && (v[0] == '+' || v[0] == '-') {
        1
    } else {
        0
    }
}

/// The value of a digit run never shrinks when more digits follow.
proof fn lemma_prefix_value(s: Seq<char>, k: int)
    requires
        0 <= k <= s.len(),
        forall|i: int| 0 <= i < s.len() ==> is_digit(s[i]),
    ensures
        0 <= decimal_value(s.take(k)) <= decimal_value(s),
    decreases s.len(),
{
    if s.len() > 0 {
        if k == s.len() {
            assert(s.take(k) =~= s);
            lemma_prefix_value(s.drop_last(), k - 1);
        } else {
            assert(s.drop_last().take(k) =~= s.take(k));
            lemma_prefix_value(s.drop_last(), k);
        }
    }
}

/// A run of digits that reaches the end covers only digits.
proof fn lemma_digit_run_full(s: Seq<char>, from: int)
    requires
        0 <= from <= s.len(),
    ensures
        0 <= digit_run(s, from) <= s.len() - from,
        digit_run(s, from) == s.len() - from <==> forall|i: int|
            from <= i < s.len() ==> is_digit(s[i]),
    decreases s.len() - from,
{
    if from < s.len() && is_digit(s[from]) {
        lemma_digit_run_full(s, from + 1);
    }
}

fn is_integer_chars(v: &Vec<char>) -> (r: bool)
    ensures
        r == is_integer_text(v@),
{
    let n = v.len();
    let start = has_sign(v);
    if start == n {
        return false;
    }
    let limit: u64 = if v[0] == '-' {
        0x8000_0000_0000_0000
    } else {
        0x7fff_ffff_ffff_ffff
    };
    let ghost digits = v@.subrange(start as int, n as int);
    let mut acc: u64 = 0;
    let mut i = start;
    proof {
        lemma_digit_run_full(v@, start as int);
    }
    while i < n
        invariant
            start <= i <= n,
            n == v@.len(),
            start < n,
            start == after_sign(v@),
            digits == v@.subrange(start as int, n as int),
            acc == decimal_value(digits.take(i - start)),
            acc <= limit,
            0x7fff_ffff_ffff_ffff <= limit <= 0x8000_0000_0000_0000,
            limit == (if v@[0] == '-' {
                0x8000_0000_0000_0000u64
            } else {
                0x7fff_ffff_ffff_ffffu64
            }),
            forall|j: int| start <= j < i ==> is_digit(v@[j]),
            digit_run(v@, start as int) == n - start <==> forall|j: int|
                start <= j < n ==> is_digit(v@[j]),
        decreases n - i,
    {
        let c = v[i];
        if !('0' <= c && c <= '9') {
            return false;
        }
        let d: u64 = (c as u8 - 48) as u64;
        proof {
            let next = digits.take(i - start + 1);
            assert(next.drop_last() =~= digits.take(i - start));
        }
        if acc > (limit - d) / 10 {
            proof {
                if forall|j: int| start <= j < n ==> is_digit(v@[j]) {
                    lemma_prefix_value(digits, i - start + 1);
                }
            }
            return false;
        }
        acc = acc * 10 + d;
        i += 1;
    }
    proof {
        assert(digits.take(n - start) =~= digits);
    }
    true
}

fn lower(c: char) -> (r: char)
    ensures
        r == ascii_lower(c),
{
    if 'A' <= c && c <= 'Z' {
        ((c as u8) + 32) as char
    } else {
        c
    }
}

fn is_word_from(v: &Vec<char>, from: usize, word: &str) -> (r: bool)
    requires
        from <= v@.len(),
    ensures
        r == is_word_at(v@, from as int, word@),
{
    let w = to_chars(word);
    if v.len() - from != w.len() {
        return false;
    }
    let mut i: usize = 0;
    while i < w.len()
        invariant
            0 <= i <= w@.len(),
            w@ == word@,
            from <= v@.len(),
            v@.len() - from == w@.len(),
            forall|j: int|
                0 <= j < i ==> ascii_lower(#[trigger] v@[from + j]) == ascii_lower(w@[j]),
        decreases w@.len() - i,
    {
        assert(from + i < v.len());
        if lower(v[from + i]) != lower(w[i]) {
            return false;
        }
        i += 1;
    }
    true
}

fn is_exponent_from(v: &Vec<char>, from: usize) -> (r: bool)
    requires
        from <= v@.len(),
    ensures
        r == is_exponent_at(v@, from as int),
{
    let n = v.len();
    if from >= n || !(v[from] == 'e' || v[from] == 'E') {
        return false;
    }
    let digits: usize = if from + 1 < n && (v[from + 1] == '+' || v[from + 1] == '-') {
        from + 2
    } else {
        from + 1
    };
    if digits >= n {
        return false;
    }
    skip_digits(v, digits) == n
}

fn is_number_from(v: &Vec<char>, from: usize) -> (r: bool)
    requires
        from <= v@.len(),
    ensures
        r == is_number_at(v@, from as int),
{
    let n = v.len();
    let point = skip_digits(v, from);
    let whole = point - from;
    let has_point = point < n && v[point] == '.';
    let mut end = point;
    let mut fraction: usize = 0;
    if has_point {
        end = skip_digits(v, point + 1);
        fraction = end - (point + 1);
    }
    if whole == 0 && fraction == 0 {
        return false;
    }
    end == n || is_exponent_from(v, end)
}

fn is_float_chars(v: &Vec<char>) -> (r: bool)
    ensures
        r == is_float_text(v@),
{
    let start = has_sign(v);
    is_number_from(v, start) || is_word_from(v, start, "inf") || is_word_from(
        v,
        start,
        "infinity",
    ) || is_word_from(v, start, "nan")
}

fn is_boolean_chars(v: &Vec<char>) -> (r: bool)
    ensures
        r == is_boolean_text(v@),
{
    is_word_from(v, 0, "true") || is_word_from(v, 0, "false")
}

/// Classifies a trimmed sample, given whether it reads as a date and whether
/// it reads as a timestamp.
pub fn classify(text: &str, date: bool, timestamp: bool) -> (r: DataType)
    ensures
        r@ == classified(text@, date, timestamp),
{
    let v = to_chars(text);
    if is_integer_chars(&v) {
        DataType::Integer
    } else if is_float_chars(&v) {
        DataType::Float
    } else if is_boolean_chars(&v) {
        DataType::Boolean
    } else if date || timestamp {
        DataType::Date
    } else {
        DataType::Text
    }
}

impl DataType {
    /// Infers the type of a column from one raw sample of it: trims the
    /// sample, asks the two date readers about it, and classifies it.
    pub fn from(value: &String) -> (r: DataType)
        ensures
            r@ == inferred(value@),
    {
        let text = trim(value.as_str());
        let date = date_accepted(text, "%Y-%m-%d");
        let timestamp = timestamp_accepted(text);
        classify(text, date, timestamp)
    }
}

} // verus!

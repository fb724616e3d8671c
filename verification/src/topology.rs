//! The topology notation `<series>S<parallel>P`, such as `96S2P`.
//!
//! Reading never fails: a count that cannot be read is taken to be 1.

use crate::arith::fits_i32;
use vstd::prelude::*;

verus! {

/// The count that stands in for one that cannot be read.
pub const DEFAULT_COUNT: i32 = 1;

/// Whether `c` is a decimal digit.
pub open spec fn is_digit(c: char) -> bool {
    '0' <= c <= '9'
}

/// The value of a decimal digit.
pub open spec fn digit_value(c: char) -> int {
    c as int - '0' as int
}

/// Whether `text` holds decimal digits only.
pub open spec fn all_digits(text: Seq<char>) -> bool {
    forall|i: int| 0 <= i < text.len() ==> is_digit(#[trigger] text[i])
}

/// The number that a run of decimal digits writes.
pub open spec fn decimal_value(digits: Seq<char>) -> int
    decreases digits.len(),
{
    if digits.len() == 0 {
        0
    } else {
        10 * decimal_value(digits.drop_last()) + digit_value(digits.last())
    }
}

/// Whether `text` starts with a sign.
pub open spec fn has_sign(text: Seq<char>) -> bool {
    text.len() > 0 && (text[0] == '-' || text[0] == '+')
}

/// What is left of `text` behind its sign, if it has one.
pub open spec fn unsigned_part(text: Seq<char>) -> Seq<char> {
    if has_sign(text) {
        text.subrange(1, text.len() as int)
    } else {
        text
    }
}

/// The integer that `text` writes: an optional sign, then one decimal digit
/// or more, and nothing else.
pub open spec fn parsed_int(text: Seq<char>) -> Option<int> {
    let digits = unsigned_part(text);
    if digits.len() == 0 || !all_digits(digits) {
        None
    } else if has_sign(text) && text[0] == '-' {
        Some(-decimal_value(digits))
    } else {
        Some(decimal_value(digits))
    }
}

/// The `i32` that `text` writes, if it writes an integer that fits.
pub open spec fn parsed_i32(text: Seq<char>) -> Option<i32> {
    match parsed_int(text) {
        Some(v) => if fits_i32(v) {
            Some(v as i32)
        } else {
            None
        },
        None => None,
    }
}

/// The first index at or behind `from` at which `text` holds `a` or `b`,
/// or the length of `text` if there is none.
pub open spec fn mark_index(text: Seq<char>, from: int, a: char, b: char) -> int
    decreases text.len() - from,
{
    if from >= text.len() {
        text.len() as int
    } else if text[from] == a || text[from] == b {
        from
    } else {
        mark_index(text, from + 1, a, b)
    }
}

/// The part of a topology that writes the series count: what stands before
/// the first `S`.
pub open spec fn series_field(text: Seq<char>) -> Seq<char> {
    text.subrange(0, mark_index(text, 0, 'S', 'S'))
}

/// Whether a topology has a part for the parallel count: it has if it
/// holds an `S`.
pub open spec fn has_parallel_field(text: Seq<char>) -> bool {
    mark_index(text, 0, 'S', 'S') < text.len()
}

/// The part of a topology that writes the parallel count: what stands
/// behind the first `S`, up to the next `S` or `P`.
pub open spec fn parallel_field(text: Seq<char>) -> Seq<char> {
    let start = mark_index(text, 0, 'S', 'S') + 1;
    text.subrange(start, mark_index(text, start, 'S', 'P'))
}

/// The count that a field writes, or the default if it writes none.
pub open spec fn count_or_default(field: Seq<char>) -> i32 {
    match parsed_i32(field) {
        Some(v) => v,
        None => DEFAULT_COUNT,
    }
}

/// The topology that `text` writes, series first.
pub open spec fn topology_of(text: Seq<char>) -> (i32, i32) {
    (
        count_or_default(series_field(text)),
        if has_parallel_field(text) {
            count_or_default(parallel_field(text))
        } else {
            DEFAULT_COUNT
        },
    )
}

/// `mark_index` lies between `from` and the end of the text, no mark
/// stands before it, and one stands at it unless it is the end.
pub proof fn lemma_mark_index(text: Seq<char>, from: int, a: char, b: char)
    requires
        0 <= from <= text.len(),
    ensures
        from <= mark_index(text, from, a, b) <= text.len(),
        forall|j: int|
            from <= j < mark_index(text, from, a, b) ==> #[trigger] text[j] != a && text[j] != b,
        mark_index(text, from, a, b) < text.len() ==> text[mark_index(text, from, a, b)] == a
            || text[mark_index(text, from, a, b)] == b,
    decreases text.len() - from,
{
    if from < text.len() && !(text[from] == a || text[from] == b) {
        lemma_mark_index(text, from + 1, a, b);
    }
}

/// An index with a mark at it and none before it is the `mark_index`.
pub proof fn lemma_mark_index_found(text: Seq<char>, from: int, at: int, a: char, b: char)
    requires
        0 <= from <= at <= text.len(),
        forall|j: int| from <= j < at ==> #[trigger] text[j] != a && text[j] != b,
        at < text.len() ==> text[at] == a || text[at] == b,
    ensures
        mark_index(text, from, a, b) == at,
    decreases at - from,
{
    if from < at {
        assert(text[from] != a && text[from] != b);
        lemma_mark_index_found(text, from + 1, at, a, b);
    }
}

/// Appending a digit to a run of digits multiplies its value by ten and
/// adds the digit.
proof fn lemma_decimal_value_push(digits: Seq<char>, end: int)
    requires
        0 <= end < digits.len(),
    ensures
        decimal_value(digits.subrange(0, end + 1)) == 10 * decimal_value(digits.subrange(0, end))
            + digit_value(digits[end]),
{
    let longer = digits.subrange(0, end + 1);
    assert(longer.drop_last() == digits.subrange(0, end));
    assert(longer.last() == digits[end]);
}

/// Copies the characters of a text.
fn chars_of(text: &str) -> (chars: Vec<char>)
    ensures
        chars@ == text@,
{
    let mut chars: Vec<char> = Vec::new();
    for c in it: text.chars()
        invariant
            chars@ == it.seq().take(it.index() as int),
            it.seq() == text@,
    {
        chars.push(c);
    }
    chars
}

/// Finds the first `a` or `b` at or behind `from`.
fn find_mark(chars: &Vec<char>, from: usize, a: char, b: char) -> (at: usize)
    requires
        from <= chars@.len(),
    ensures
        at == mark_index(chars@, from as int, a, b),
        from <= at <= chars@.len(),
{
    let mut at: usize = from;
    while at < chars.len() && chars[at] != a && chars[at] != b
        invariant
            from <= at <= chars@.len(),
            mark_index(chars@, from as int, a, b) == mark_index(chars@, at as int, a, b),
        decreases chars@.len() - at,
    {
        at = at + 1;
    }
    at
}

/// Reads the `i32` that the characters from `start` up to `end` write.
fn parse_i32_in(chars: &Vec<char>, start: usize, end: usize) -> (value: Option<i32>)
    requires
        start <= end <= chars@.len(),
    ensures
        value == parsed_i32(chars@.subrange(start as int, end as int)),
{
    let ghost text = chars@.subrange(start as int, end as int);
    if start == end {
        return None;
    }
    let first: char = chars[start];
    assert(first == text[0]);
    let negative: bool = first == '-';
    let begin: usize = if first == '-' || first == '+' {
        start + 1
    } else {
        start
    };
    let ghost digits = unsigned_part(text);
    assert(digits == chars@.subrange(begin as int, end as int));
    if begin == end {
        return None;
    }
    let mut magnitude: i64 = 0;
    let mut too_large: bool = false;
    let mut i: usize = begin;
    while i < end
        invariant
            start <= begin <= i <= end <= chars@.len(),
            digits == chars@.subrange(begin as int, end as int),
            digits == unsigned_part(chars@.subrange(start as int, end as int)),
            all_digits(digits.subrange(0, i - begin)),
            !too_large ==> magnitude == decimal_value(digits.subrange(0, i - begin)),
            0 <= magnitude <= 0x8000_0000,
            too_large ==> decimal_value(digits.subrange(0, i - begin)) > 0x8000_0000,
        decreases end - i,
    {
        let c: char = chars[i];
        assert(c == digits[i - begin]);
        if !(c >= '0' && c <= '9') {
            assert(!is_digit(digits[i - begin]));
            return None;
        }
        proof {
            lemma_decimal_value_push(digits, i - begin);
            let longer = digits.subrange(0, i - begin + 1);
            assert forall|k: int| 0 <= k < longer.len() implies is_digit(#[trigger] longer[k]) by {
                if k < i - begin {
                    assert(longer[k] == digits.subrange(0, i - begin)[k]);
                }
            }
        }
        if !too_large {
            let next: i64 = magnitude * 10 + (c as i64 - '0' as i64);
            if next > 0x8000_0000 {
                too_large = true;
            } else {
                magnitude = next;
            }
        }
        i = i + 1;
    }
    assert(digits.subrange(0, end - begin) == digits);
    if too_large {
        None
    } else if negative {
        Some((-magnitude) as i32)
    } else if magnitude <= 0x7fff_ffff {
        Some(magnitude as i32)
    } else {
        None
    }
}

/// Reads the `i32` that `text` writes in decimal: an optional sign, then
/// digits only. Returns `None` for any other text and for a number that
/// does not fit.
pub fn parse_i32(text: &str) -> (value: Option<i32>)
    ensures
        value == parsed_i32(text@),
{
    let chars = chars_of(text);
    assert(chars@.subrange(0, chars@.len() as int) == chars@);
    parse_i32_in(&chars, 0, chars.len())
}

/// Reads a topology in the notation `<series>S<parallel>P`, series first.
///
/// The series count stands before the first `S`, the parallel count
/// between that `S` and the next `S` or `P`. Each count that cannot be
/// read, or that is missing, is 1.
pub fn parse_topology(text: &str) -> (topology: (i32, i32))
    ensures
        topology == topology_of(text@),
{
    let chars = chars_of(text);
    let first_s: usize = find_mark(&chars, 0, 'S', 'S');
    let series: i32 = match parse_i32_in(&chars, 0, first_s) {
        Some(v) => v,
        None => DEFAULT_COUNT,
    };
    if first_s == chars.len() {
        return (series, DEFAULT_COUNT);
    }
    let field_end: usize = find_mark(&chars, first_s + 1, 'S', 'P');
    let parallel: i32 = match parse_i32_in(&chars, first_s + 1, field_end) {
        Some(v) => v,
        None => DEFAULT_COUNT,
    };
    (series, parallel)
}

/// A text in the notation is read as written: where `series` holds no
/// `S` and `parallel` holds neither `S` nor `P`, the topology of
/// `series`, `S`, `parallel`, `P` and anything behind is the count that
/// each of the two writes, or 1 for one that writes none.
pub proof fn lemma_topology_of_notation(series: Seq<char>, parallel: Seq<char>, rest: Seq<char>)
    requires
        forall|i: int| 0 <= i < series.len() ==> #[trigger] series[i] != 'S',
        forall|i: int| 0 <= i < parallel.len() ==> #[trigger] parallel[i] != 'S' && parallel[i] != 'P',
    ensures
        topology_of(series + seq!['S'] + parallel + seq!['P'] + rest) == (
            count_or_default(series),
            count_or_default(parallel),
        ),
{
    let text = series + seq!['S'] + parallel + seq!['P'] + rest;
    let first_s = series.len() as int;
    let start = first_s + 1;
    let field_end = start + parallel.len();
    assert forall|j: int| 0 <= j < first_s implies #[trigger] text[j] != 'S' && text[j] != 'S' by {
        assert(text[j] == series[j]);
    }
    assert(text[first_s] == 'S');
    lemma_mark_index_found(text, 0, first_s, 'S', 'S');
    assert forall|j: int| start <= j < field_end implies #[trigger] text[j] != 'S' && text[j] != 'P' by {
        assert(text[j] == parallel[j - start]);
    }
    assert(text[field_end] == 'P');
    lemma_mark_index_found(text, start, field_end, 'S', 'P');
    assert(series_field(text) =~= series);
    assert(parallel_field(text) =~= parallel);
}

/// A text that writes no count at all is read as one cell in series and
/// one in parallel: where neither of its two fields can be read, or the
/// parallel field is missing, each count is 1.
pub proof fn lemma_unreadable_topology_is_default(text: Seq<char>)
    requires
        parsed_i32(series_field(text)) is None,
        !has_parallel_field(text) || parsed_i32(parallel_field(text)) is None,
    ensures
        topology_of(text) == (DEFAULT_COUNT, DEFAULT_COUNT),
        topology_of(text) == (1i32, 1i32),
{
}

/// A text without any `S` has no parallel field, so its parallel count
/// is 1 whatever else it holds.
pub proof fn lemma_topology_without_separator(text: Seq<char>)
    requires
        forall|i: int| 0 <= i < text.len() ==> #[trigger] text[i] != 'S',
    ensures
        topology_of(text) == (count_or_default(text), DEFAULT_COUNT),
{
    lemma_mark_index_found(text, 0, text.len() as int, 'S', 'S');
    assert(series_field(text) =~= text);
}

} // verus!

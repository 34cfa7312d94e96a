//! Lines of text: white space at their ends, and texts that carry a position.

use vstd::prelude::*;
use crate::decimal::{
    decimal,
    is_digit,
    lemma_decimal_injective,
    lemma_decimal_is_digits,
    push_decimal,
};

verus! {

/// Whether `c` has the Unicode property `White_Space`.
pub open spec fn spec_is_whitespace(c: char) -> bool {
    ||| '\u{9}' <= c <= '\u{d}'
    ||| c == ' '
    ||| c == '\u{85}'
    ||| c == '\u{a0}'
    ||| c == '\u{1680}'
    ||| '\u{2000}' <= c <= '\u{200a}'
    ||| c == '\u{2028}'
    ||| c == '\u{2029}'
    ||| c == '\u{202f}'
    ||| c == '\u{205f}'
    ||| c == '\u{3000}'
}

/// Whether `c` has the Unicode property `White_Space`.
#[verifier::when_used_as_spec(spec_is_whitespace)]
pub fn is_whitespace(c: char) -> (b: bool)
    ensures
        b == spec_is_whitespace(c),
{
    ('\u{9}' <= c && c <= '\u{d}') || c == ' ' || c == '\u{85}' || c == '\u{a0}' || c == '\u{1680}'
        || ('\u{2000}' <= c && c <= '\u{200a}') || c == '\u{2028}' || c == '\u{2029}' || c
        == '\u{202f}' || c == '\u{205f}' || c == '\u{3000}'
}

/// `text` without the white space it begins with.
pub open spec fn trim_start(text: Seq<char>) -> Seq<char>
    decreases text.len(),
{
    if text.len() > 0 && spec_is_whitespace(text.first()) {
        trim_start(text.drop_first())
    } else {
        text
    }
}

/// `text` without the white space it ends with.
pub open spec fn trim_end(text: Seq<char>) -> Seq<char>
    decreases text.len(),
{
    if text.len() > 0 && spec_is_whitespace(text.last()) {
        trim_end(text.drop_last())
    } else {
        text
    }
}

/// `text` without the white space at its two ends.
pub open spec fn trimmed(text: Seq<char>) -> Seq<char> {
    trim_end(trim_start(text))
}

/// Where the white space at the start of `text` stops, there the rest begins.
proof fn lemma_trim_start(text: Seq<char>, start: int)
    requires
        0 <= start <= text.len(),
        forall|i: int| 0 <= i < start ==> spec_is_whitespace(#[trigger] text[i]),
        start < text.len() ==> !spec_is_whitespace(text[start]),
    ensures
        trim_start(text) == text.skip(start),
    decreases start,
{
    if start == 0 {
        assert(text.skip(0) =~= text);
    } else {
        let rest = text.drop_first();
        assert forall|i: int| 0 <= i < start - 1 implies spec_is_whitespace(
            #[trigger] rest[i],
        ) by {
            assert(rest[i] == text[i + 1]);
        }
        lemma_trim_start(rest, start - 1);
        assert(rest.skip(start - 1) =~= text.skip(start));
    }
}

/// Where the white space at the end of `text` begins, there the rest stops.
proof fn lemma_trim_end(text: Seq<char>, end: int)
    requires
        0 <= end <= text.len(),
        forall|i: int| end <= i < text.len() ==> spec_is_whitespace(#[trigger] text[i]),
        end > 0 ==> !spec_is_whitespace(text[end - 1]),
    ensures
        trim_end(text) == text.take(end),
    decreases text.len() - end,
{
    if end == text.len() {
        assert(text.take(end) =~= text);
    } else {
        let rest = text.drop_last();
        lemma_trim_end(rest, end);
        assert(rest.take(end) =~= text.take(end));
    }
}

/// `text` without the white space at its two ends.
pub fn trim(text: &str) -> (inner: &str)
    ensures
        inner@ == trimmed(text@),
{
    let len: usize = text.unicode_len();
    let mut start: usize = 0;
    let mut end: usize = 0;
    let mut index: usize = 0;
    for c in it: text.chars()
        invariant
            it.seq() == text@,
            index == it.index(),
            len == text@.len(),
            start <= end <= index <= len,
            forall|i: int| 0 <= i < start ==> spec_is_whitespace(#[trigger] text@[i]),
            forall|i: int| end <= i < index ==> spec_is_whitespace(#[trigger] text@[i]),
            start < end ==> !spec_is_whitespace(text@[start as int]) && !spec_is_whitespace(
                text@[end - 1],
            ),
            start == end ==> start == index,
    {
        if !is_whitespace(c) {
            end = index + 1;
        } else if start == end {
            start = index + 1;
            end = index + 1;
        }
        index = index + 1;
    }
    proof {
        lemma_trim_start(text@, start as int);
        lemma_trim_end(text@.skip(start as int), end - start);
        assert(text@.skip(start as int).take(end - start) =~= text@.subrange(
            start as int,
            end as int,
        ));
    }
    text.substring_char(start, end)
}

/// The text that holds `index` in decimal notation between `prefix` and a
/// hyphen, and `tail` behind the hyphen.
pub open spec fn indexed(prefix: Seq<char>, index: nat, tail: Seq<char>) -> Seq<char> {
    prefix + decimal(index) + seq!['-'] + tail
}

/// The text that holds `index` in decimal notation between `prefix` and a
/// hyphen, and `tail` behind the hyphen.
pub fn indexed_text(prefix: &str, index: u32, tail: &str) -> (text: String)
    ensures
        text@ == indexed(prefix@, index as nat, tail@),
{
    let mut text = String::from_str(prefix);
    push_decimal(&mut text, index);
    proof {
        reveal_strlit("-");
        assert("-"@ =~= seq!['-']);
    }
    text.append("-");
    text.append(tail);
    text
}

/// Two texts with one prefix and different positions differ, whatever stands
/// behind the hyphen.
pub proof fn lemma_indexed_distinct(
    prefix: Seq<char>,
    i: nat,
    j: nat,
    tail_i: Seq<char>,
    tail_j: Seq<char>,
)
    requires
        i != j,
    ensures
        indexed(prefix, i, tail_i) != indexed(prefix, j, tail_j),
{
    let a = indexed(prefix, i, tail_i);
    let b = indexed(prefix, j, tail_j);
    let di = decimal(i);
    let dj = decimal(j);
    lemma_decimal_is_digits(i);
    lemma_decimal_is_digits(j);
    if a == b {
        let p = prefix.len() as int;
        assert forall|k: int| 0 <= k < di.len() implies a[p + k] == di[k] by {}
        assert forall|k: int| 0 <= k < dj.len() implies b[p + k] == dj[k] by {}
        assert(a[p + di.len()] == '-');
        assert(b[p + dj.len()] == '-');
        if di.len() < dj.len() {
            assert(is_digit(dj[di.len() as int]));
            assert(b[p + di.len()] == dj[di.len() as int]);
        } else if dj.len() < di.len() {
            assert(is_digit(di[dj.len() as int]));
            assert(a[p + dj.len()] == di[dj.len() as int]);
        } else {
            assert forall|k: int| 0 <= k < di.len() implies di[k] == dj[k] by {
                assert(a[p + k] == di[k]);
                assert(b[p + k] == dj[k]);
            }
            assert(di =~= dj);
            lemma_decimal_injective(i, j);
        }
    }
}

} // verus!

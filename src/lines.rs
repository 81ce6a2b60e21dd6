//! Mapping byte offsets of a file's content to 1-based line numbers.

use vstd::prelude::*;
use vstd::string::StringSliceAdditionalSpecFns;

verus! {

/// Number of newline bytes in `b`.
pub open spec fn count_newlines(b: Seq<u8>) -> nat
    decreases b.len(),
{
    if b.len() == 0 {
        0
    } else {
        count_newlines(b.drop_last()) + if b.last() == 10u8 { 1nat } else { 0nat }
    }
}

/// The 1-based line on which the byte at `offset` stands: one more than the
/// newlines strictly before it. An offset at or past the end gives one more
/// than the number of newlines in the whole content.
pub open spec fn line_number(content: Seq<u8>, offset: int) -> int {
    if offset < content.len() {
        1 + count_newlines(content.subrange(0, offset)) as int
    } else {
        1 + count_newlines(content) as int
    }
}

proof fn lemma_count_newlines_step(b: Seq<u8>, i: int)
    requires
        0 <= i < b.len(),
    ensures
        count_newlines(b.subrange(0, i + 1)) == count_newlines(b.subrange(0, i)) + if b[i]
            == 10u8 {
            1nat
        } else {
            0nat
        },
{
    assert(b.subrange(0, i + 1).drop_last() =~= b.subrange(0, i));
}

proof fn lemma_count_newlines_prefix_le(b: Seq<u8>, i: int, j: int)
    requires
        0 <= i <= j <= b.len(),
    ensures
        count_newlines(b.subrange(0, i)) <= count_newlines(b.subrange(0, j)),
    decreases j - i,
{
    if i < j {
        lemma_count_newlines_step(b, j - 1);
        lemma_count_newlines_prefix_le(b, i, j - 1);
    }
}

/// The line number never decreases as the offset grows, for fixed content.
pub proof fn lemma_line_number_monotonic(content: Seq<u8>, a: int, b: int)
    requires
        0 <= a <= b,
    ensures
        line_number(content, a) <= line_number(content, b),
{
    let n = content.len() as int;
    assert(content.subrange(0, n) =~= content);
    let ea = if a < n { a } else { n };
    let eb = if b < n { b } else { n };
    lemma_count_newlines_prefix_le(content, ea, eb);
}

/// The 1-based line number of byte offset `start` in `text`. Counting starts at
/// one and grows at each newline byte; the count is returned as soon as the scan
/// reaches `start`, before the byte there is looked at. Where `start` is not
/// below the length, the count over the whole text is returned.
pub fn line_from_bytes(text: &str, start: usize, _end: usize) -> (r: i128)
    ensures
        r == line_number(text.spec_bytes(), start as int),
        r >= 1,
{
    let bytes = text.as_bytes();
    let ghost b = text.spec_bytes();
    let mut count: i128 = 1;
    let mut i: usize = 0;
    while i < bytes.len()
        invariant
            bytes@ == b,
            b == text.spec_bytes(),
            0 <= i <= b.len(),
            i <= start,
            count == 1 + count_newlines(b.subrange(0, i as int)),
            count <= i + 1,
        decreases b.len() - i,
    {
        if i == start {
            return count;
        }
        proof {
            lemma_count_newlines_step(b, i as int);
        }
        if bytes[i] == 10u8 {
            count = count + 1;
        }
        i = i + 1;
    }
    proof {
        assert(b.subrange(0, b.len() as int) =~= b);
    }
    count
}

} // verus!

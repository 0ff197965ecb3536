//! Cutting a line of text into words.
use crate::rgal::grammar::{
    count, drop_blanks, fields, find, is_blank, lemma_find, line_number, operand_words,
    skip_blanks, trimmed, word_end, COMMA, NEWLINE,
};
use vstd::prelude::*;
use vstd::slice::{slice_subrange, slice_to_vec};

verus! {

/// The byte sequences that the words hold.
pub open spec fn words_of(words: Vec<Vec<u8>>) -> Seq<Seq<u8>> {
    Seq::new(words@.len(), |i: int| words@[i]@)
}

/// Whether the byte is a space, a tab or a carriage return.
pub fn blank(b: u8) -> (r: bool)
    ensures
        r == is_blank(b),
{
    b == 0x20 || b == 0x09 || b == 0x0d
}

/// The index of the first `b` in `s[lo..hi]`; `hi` if there is none.
pub fn find_byte(s: &[u8], b: u8, lo: usize, hi: usize) -> (i: usize)
    requires
        lo <= hi <= s@.len(),
    ensures
        i == find(s@, b, lo as int, hi as int),
        lo <= i <= hi,
{
    let mut i = lo;
    while i < hi && s[i] != b
        invariant
            lo <= i <= hi <= s@.len(),
            find(s@, b, i as int, hi as int) == find(s@, b, lo as int, hi as int),
        decreases hi - i,
    {
        i += 1;
    }
    i
}

/// The index of the first byte in `s[lo..hi]` that is not blank; `hi` if
/// all are blank.
pub fn skip_blank_bytes(s: &[u8], lo: usize, hi: usize) -> (i: usize)
    requires
        lo <= hi <= s@.len(),
    ensures
        i == skip_blanks(s@, lo as int, hi as int),
        lo <= i <= hi,
{
    let mut i = lo;
    while i < hi && blank(s[i])
        invariant
            lo <= i <= hi <= s@.len(),
            skip_blanks(s@, i as int, hi as int) == skip_blanks(s@, lo as int, hi as int),
        decreases hi - i,
    {
        i += 1;
    }
    i
}

/// The index after the last byte in `s[lo..hi]` that is not blank; `lo` if
/// all are blank.
pub fn drop_blank_bytes(s: &[u8], lo: usize, hi: usize) -> (i: usize)
    requires
        lo <= hi <= s@.len(),
    ensures
        i == drop_blanks(s@, lo as int, hi as int),
        lo <= i <= hi,
{
    let mut i = hi;
    while i > lo && blank(s[i - 1])
        invariant
            lo <= i <= hi <= s@.len(),
            drop_blanks(s@, lo as int, i as int) == drop_blanks(s@, lo as int, hi as int),
        decreases i - lo,
    {
        i -= 1;
    }
    i
}

/// The index of the first byte in `s[lo..hi]` that is blank or a comma;
/// `hi` if there is none.
pub fn find_word_end(s: &[u8], lo: usize, hi: usize) -> (i: usize)
    requires
        lo <= hi <= s@.len(),
    ensures
        i == word_end(s@, lo as int, hi as int),
        lo <= i <= hi,
{
    let mut i = lo;
    while i < hi && !blank(s[i]) && s[i] != COMMA
        invariant
            lo <= i <= hi <= s@.len(),
            word_end(s@, i as int, hi as int) == word_end(s@, lo as int, hi as int),
        decreases hi - i,
    {
        i += 1;
    }
    i
}

/// A copy of `s[lo..hi]` without the blanks at its ends.
pub fn trimmed_copy(s: &[u8], lo: usize, hi: usize) -> (word: Vec<u8>)
    requires
        lo <= hi <= s@.len(),
    ensures
        word@ == trimmed(s@, lo as int, hi as int),
{
    let start = skip_blank_bytes(s, lo, hi);
    let stop = drop_blank_bytes(s, start, hi);
    slice_to_vec(slice_subrange(s, start, stop))
}

/// The pieces of `s[lo..hi]` between its commas, each without the blanks at
/// its ends.
pub fn split_fields(s: &[u8], lo: usize, hi: usize) -> (words: Vec<Vec<u8>>)
    requires
        lo <= hi <= s@.len(),
    ensures
        words_of(words) == fields(s@, lo as int, hi as int),
{
    let mut words: Vec<Vec<u8>> = Vec::new();
    let mut start = lo;
    let mut done = false;
    while !done
        invariant
            lo <= start <= hi <= s@.len(),
            !done ==> words_of(words) + fields(s@, start as int, hi as int) == fields(
                s@,
                lo as int,
                hi as int,
            ),
            done ==> words_of(words) == fields(s@, lo as int, hi as int),
        decreases
                if done {
                    0
                } else {
                    hi - start + 1
                },
    {
        let comma = find_byte(s, COMMA, start, hi);
        let word = trimmed_copy(s, start, comma);
        let ghost before = words_of(words);
        words.push(word);
        proof {
            assert(words_of(words) =~= before.push(word@));
        }
        if comma >= hi {
            proof {
                assert(before.push(word@) =~= before + seq![word@]);
            }
            done = true;
        } else {
            proof {
                assert(before.push(word@) + fields(s@, comma + 1, hi as int) =~= before + (
                seq![word@] + fields(s@, comma + 1, hi as int)));
            }
            start = comma + 1;
        }
    }
    words
}

/// The operand words in `s[lo..hi]`, the text behind a mnemonic.
pub fn split_operands(s: &[u8], lo: usize, hi: usize) -> (words: Vec<Vec<u8>>)
    requires
        lo <= hi <= s@.len(),
    ensures
        words_of(words) == operand_words(s@, lo as int, hi as int),
{
    if skip_blank_bytes(s, lo, hi) >= hi {
        let words: Vec<Vec<u8>> = Vec::new();
        proof {
            assert(words_of(words) =~= Seq::<Seq<u8>>::empty());
        }
        words
    } else {
        split_fields(s, lo, hi)
    }
}

/// A byte occurs in a piece of text no more often than the piece is long.
pub proof fn lemma_count_bound(s: Seq<u8>, b: u8, lo: int, hi: int)
    requires
        lo <= hi,
    ensures
        0 <= count(s, b, lo, hi) <= hi - lo,
    decreases hi - lo,
{
    if lo < hi {
        lemma_count_bound(s, b, lo, hi - 1);
    }
}

/// Text without a byte `b` adds nothing to the count of `b`.
pub proof fn lemma_count_without(s: Seq<u8>, b: u8, lo: int, mid: int, hi: int)
    requires
        lo <= mid <= hi,
        forall|i: int| mid <= i < hi ==> s[i] != b,
    ensures
        count(s, b, lo, hi) == count(s, b, lo, mid),
    decreases hi - mid,
{
    if mid < hi {
        lemma_count_without(s, b, lo, mid, hi - 1);
    }
}

/// The line behind the next line break has the next number.
pub proof fn lemma_next_line(s: Seq<u8>, lo: int)
    requires
        0 <= lo <= s.len(),
        find(s, NEWLINE, lo, s.len() as int) < s.len(),
    ensures
        line_number(s, find(s, NEWLINE, lo, s.len() as int) + 1) == line_number(s, lo) + 1,
        line_number(s, lo) <= lo + 1,
{
    let hi = find(s, NEWLINE, lo, s.len() as int);
    lemma_find(s, NEWLINE, lo, s.len() as int);
    lemma_count_without(s, NEWLINE, 0, lo, hi);
    lemma_count_bound(s, NEWLINE, 0, lo);
}

} // verus!

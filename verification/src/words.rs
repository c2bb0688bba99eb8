//! Splitting an input line into whitespace-separated words.
//!
//! A command line is a sequence of bytes; its words are the maximal runs of
//! non-whitespace bytes.  `split_words` is the executable splitter and is
//! proved to return exactly the words of `spec_words`.

use vstd::prelude::*;

verus! {

/// The ASCII whitespace bytes that separate words on a command line:
/// space and the control characters tab through carriage return.
pub open spec fn is_space(b: u8) -> bool {
    b == 32 || (9 <= b && b <= 13)
}

/// The position that ends the run of non-space bytes starting at `i`:
/// the first position at or after `i` that is the line's end or a space.
pub open spec fn word_end(s: Seq<u8>, i: int) -> int
    recommends
        0 <= i <= s.len(),
    decreases s.len() - i,
{
    if i < 0 || i >= s.len() || is_space(s[i]) {
        i
    } else {
        word_end(s, i + 1)
    }
}

/// The words of `s` that start at or after position `i`.
pub open spec fn words_from(s: Seq<u8>, i: int) -> Seq<Seq<u8>>
    recommends
        0 <= i <= s.len(),
    decreases s.len() - i,
    via words_from_decreases
{
    if i < 0 || i >= s.len() {
        Seq::empty()
    } else if is_space(s[i]) {
        words_from(s, i + 1)
    } else {
        seq![s.subrange(i, word_end(s, i))] + words_from(s, word_end(s, i))
    }
}

#[via_fn]
proof fn words_from_decreases(s: Seq<u8>, i: int) {
    if 0 <= i && i < s.len() && !is_space(s[i]) {
        lemma_word_end_bounds(s, i + 1);
    }
}

/// The whitespace-separated words of the line `s`, in order.
pub open spec fn spec_words(s: Seq<u8>) -> Seq<Seq<u8>> {
    words_from(s, 0)
}

/// The views of a vector of byte vectors, as a sequence of byte sequences.
pub open spec fn views_of(ts: Seq<Vec<u8>>) -> Seq<Seq<u8>> {
    Seq::new(ts.len(), |i: int| ts[i]@)
}

/// `word_end` stays within the line, stops only at a space or the end, and
/// everything before it in the run is not a space.
pub proof fn lemma_word_end_bounds(s: Seq<u8>, i: int)
    requires
        0 <= i <= s.len(),
    ensures
        i <= word_end(s, i) <= s.len(),
        word_end(s, i) < s.len() ==> is_space(s[word_end(s, i)]),
        forall|k: int| i <= k < word_end(s, i) ==> !is_space(s[k]),
    decreases s.len() - i,
{
    if i < s.len() && !is_space(s[i]) {
        lemma_word_end_bounds(s, i + 1);
    }
}

/// A run of non-space bytes from `i` up to `j`, where `j` is the line's end
/// or a space, pins `word_end(s, i)` down to `j`.
pub proof fn lemma_word_end_locate(s: Seq<u8>, i: int, j: int)
    requires
        0 <= i <= j <= s.len(),
        forall|k: int| i <= k < j ==> !is_space(s[k]),
        j == s.len() || is_space(s[j]),
    ensures
        word_end(s, i) == j,
    decreases j - i,
{
    if i < j {
        lemma_word_end_locate(s, i + 1, j);
    }
}

/// Whether `b` is one of the whitespace bytes that separate words.
pub fn byte_is_space(b: u8) -> (r: bool)
    ensures
        r == is_space(b),
{
    b == 32 || (9 <= b && b <= 13)
}

/// Splits a line into its whitespace-separated words, in order.
pub fn split_words(s: &Vec<u8>) -> (r: Vec<Vec<u8>>)
    ensures
        views_of(r@) == spec_words(s@),
{
    let mut r: Vec<Vec<u8>> = Vec::new();
    let mut i: usize = 0;
    proof {
        assert(views_of(r@) =~= Seq::<Seq<u8>>::empty());
    }
    while i < s.len()
        invariant
            i <= s@.len(),
            spec_words(s@) == views_of(r@) + words_from(s@, i as int),
        decreases s@.len() - i,
    {
        if byte_is_space(s[i]) {
            proof {
                assert(words_from(s@, i as int) == words_from(s@, i as int + 1));
            }
            i = i + 1;
        } else {
            let ghost start = i as int;
            let mut word: Vec<u8> = Vec::new();
            while i < s.len() && !byte_is_space(s[i])
                invariant
                    0 <= start <= i as int <= s@.len(),
                    start < s@.len(),
                    !is_space(s@[start]),
                    word@ == s@.subrange(start, i as int),
                    forall|k: int| start <= k < i as int ==> !is_space(s@[k]),
                decreases s@.len() - i,
            {
                word.push(s[i]);
                i = i + 1;
                proof {
                    assert(word@ =~= s@.subrange(start, i as int));
                }
            }
            proof {
                lemma_word_end_locate(s@, start, i as int);
            }
            let ghost old_views = views_of(r@);
            r.push(word);
            proof {
                assert(views_of(r@) =~= old_views.push(word@));
                assert(words_from(s@, start) == seq![s@.subrange(start, word_end(s@, start))]
                    + words_from(s@, word_end(s@, start)));
                assert(views_of(r@) + words_from(s@, i as int) =~= old_views + words_from(
                    s@,
                    start,
                ));
            }
        }
    }
    proof {
        assert(words_from(s@, i as int) =~= Seq::<Seq<u8>>::empty());
        assert(views_of(r@) =~= spec_words(s@));
    }
    r
}

} // verus!

//! Splitting a line into its fields.
//!
//! A field, here called a word, is a maximal run of characters that are not
//! whitespace. [`words`] says which words a text holds, and
//! [`split_whitespace`] computes them.

use vstd::prelude::*;
use crate::whitespace::{char_is_whitespace, is_whitespace};

verus! {

/// The number of characters at the front of `s` before the first whitespace
/// character, or before the end of `s` if it holds no whitespace.
pub open spec fn word_len(s: Seq<char>) -> nat
    decreases s.len(),
{
    if s.len() == 0 || is_whitespace(s[0]) {
        0
    } else {
        1 + word_len(s.skip(1))
    }
}

/// The words of `s`, in the order in which they stand in `s`.
///
/// Whitespace at the front is passed over. Where `s` starts with another
/// character, its first word is all of `s` up to the next whitespace
/// character, and the remaining words are those of what follows it.
pub open spec fn words(s: Seq<char>) -> Seq<Seq<char>>
    decreases s.len(),
    via words_decreases
{
    if s.len() == 0 {
        Seq::empty()
    } else if is_whitespace(s[0]) {
        words(s.skip(1))
    } else {
        seq![s.take(word_len(s) as int)] + words(s.skip(word_len(s) as int))
    }
}

#[via_fn]
proof fn words_decreases(s: Seq<char>) {
    lemma_word_len_bounds(s);
}

/// A first word is no longer than the text it is taken from, and is not
/// empty where the text starts with a character that is not whitespace.
pub proof fn lemma_word_len_bounds(s: Seq<char>)
    ensures
        word_len(s) <= s.len(),
        s.len() > 0 && !is_whitespace(s[0]) ==> word_len(s) >= 1,
    decreases s.len(),
{
    if s.len() > 0 && !is_whitespace(s[0]) {
        lemma_word_len_bounds(s.skip(1));
    }
}

/// The first word of `s` holds no whitespace, and ends at the end of `s` or
/// before a whitespace character.
pub proof fn lemma_word_len_maximal(s: Seq<char>)
    ensures
        forall|j: int| 0 <= j < word_len(s) ==> !is_whitespace(#[trigger] s[j]),
        word_len(s) == s.len() || (word_len(s) < s.len() && is_whitespace(s[word_len(s) as int])),
    decreases s.len(),
{
    if s.len() > 0 && !is_whitespace(s[0]) {
        let rest = s.skip(1);
        lemma_word_len_maximal(rest);
        assert forall|j: int| 0 <= j < word_len(s) implies !is_whitespace(#[trigger] s[j]) by {
            if j > 0 {
                assert(s[j] == rest[j - 1]);
            }
        }
    }
}

/// `k` is the length of the first word of `s` where the first `k` characters
/// of `s` hold no whitespace and are followed by whitespace or by the end.
pub proof fn lemma_word_len_is(s: Seq<char>, k: int)
    requires
        0 <= k <= s.len(),
        forall|j: int| 0 <= j < k ==> !is_whitespace(#[trigger] s[j]),
        k == s.len() || is_whitespace(s[k]),
    ensures
        word_len(s) == k,
    decreases k,
{
    if k > 0 {
        let rest = s.skip(1);
        assert(forall|j: int| 0 <= j < k - 1 ==> !is_whitespace(#[trigger] rest[j]));
        lemma_word_len_is(rest, k - 1);
    }
}

/// Where the characters of `s` from `start` up to `end` hold no whitespace
/// and are followed by whitespace or by the end, they are the first word of
/// what `s` holds from `start` on, and the other words are those from `end`
/// on.
pub proof fn lemma_words_from(s: Seq<char>, start: int, end: int)
    requires
        0 <= start < end <= s.len(),
        forall|j: int| start <= j < end ==> !is_whitespace(#[trigger] s[j]),
        end == s.len() || is_whitespace(s[end]),
    ensures
        words(s.skip(start)) == seq![s.subrange(start, end)] + words(s.skip(end)),
{
    let tail = s.skip(start);
    assert(forall|j: int| 0 <= j < end - start ==> !is_whitespace(#[trigger] tail[j]));
    lemma_word_len_is(tail, end - start);
    assert(tail.take(end - start) =~= s.subrange(start, end));
    assert(tail.skip(end - start) =~= s.skip(end));
}

/// Splits `line` at whitespace into its words.
pub fn split_whitespace<'a>(line: &'a str) -> (tokens: Vec<&'a str>)
    ensures
        tokens.deep_view() == words(line@),
{
    let n = line.unicode_len();
    let mut tokens: Vec<&'a str> = Vec::new();
    let mut in_word = false;
    let mut start: usize = 0;
    let mut i: usize = 0;
    assert(line@.skip(0) =~= line@);
    for c in it: line.chars()
        invariant
            it.seq() == line@,
            i == it.index(),
            n == line@.len(),
            in_word ==> start < i,
            in_word ==> forall|j: int| start <= j < i ==> !is_whitespace(#[trigger] line@[j]),
            words(line@) == tokens.deep_view() + words(
                line@.skip(if in_word { start as int } else { i as int }),
            ),
    {
        assert(line@.skip(i as int).skip(1) =~= line@.skip(i + 1));
        if char_is_whitespace(c) {
            if in_word {
                tokens.push(line.substring_char(start, i));
                proof {
                    lemma_words_from(line@, start as int, i as int);
                }
                in_word = false;
            }
        } else if !in_word {
            start = i;
            in_word = true;
        }
        i += 1;
    }
    if in_word {
        tokens.push(line.substring_char(start, n));
        proof {
            lemma_words_from(line@, start as int, n as int);
        }
    }
    tokens
}

} // verus!

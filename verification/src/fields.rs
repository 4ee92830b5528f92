//! What whitespace does to the words of a text.
//!
//! Whitespace separates words and does nothing else: it adds no word, it
//! does not matter how much of it there is, and a text has three words just
//! where it is three words with whitespace between and around them.

use vstd::prelude::*;
use crate::trim::{trimmed, trimmed_end, trimmed_start};
use crate::whitespace::{is_blank, is_whitespace, is_word};
use crate::words::{
    lemma_word_len_bounds,
    lemma_word_len_maximal,
    lemma_words_from,
    word_len,
    words,
};

verus! {

/// Whitespace at the front of a text adds no word.
pub proof fn lemma_words_after_blank(blank: Seq<char>, s: Seq<char>)
    requires
        is_blank(blank),
    ensures
        words(blank + s) == words(s),
    decreases blank.len(),
{
    if blank.len() > 0 {
        let rest = blank.skip(1);
        assert((blank + s).skip(1) =~= rest + s);
        assert(is_blank(rest));
        lemma_words_after_blank(rest, s);
    }
}

/// Whitespace between two texts separates their words: the words of the
/// whole are those of the first text followed by those of the second.
pub proof fn lemma_words_concat(a: Seq<char>, blank: Seq<char>, b: Seq<char>)
    requires
        is_blank(blank),
        blank.len() > 0,
    ensures
        words(a + blank + b) == words(a) + words(b),
    decreases a.len(),
{
    let whole = a + blank + b;
    if a.len() == 0 {
        lemma_words_after_blank(blank, b);
    } else if is_whitespace(a[0]) {
        assert(whole.skip(1) =~= a.skip(1) + blank + b);
        lemma_words_concat(a.skip(1), blank, b);
    } else {
        let k = word_len(a) as int;
        lemma_word_len_bounds(a);
        lemma_word_len_maximal(a);
        assert(forall|j: int| 0 <= j < k ==> !is_whitespace(#[trigger] whole[j]));
        assert(is_whitespace(whole[k]));
        lemma_words_from(whole, 0, k);
        assert(whole.skip(0) =~= whole);
        assert(whole.subrange(0, k) =~= a.take(k));
        assert(whole.skip(k) =~= a.skip(k) + blank + b);
        lemma_words_concat(a.skip(k), blank, b);
        assert(seq![a.take(k)] + (words(a.skip(k)) + words(b)) =~= (seq![a.take(k)] + words(
            a.skip(k),
        )) + words(b));
    }
}

/// Whitespace at the end of a text adds no word.
pub proof fn lemma_words_before_blank(s: Seq<char>, blank: Seq<char>)
    requires
        is_blank(blank),
    ensures
        words(s + blank) == words(s),
{
    if blank.len() > 0 {
        lemma_words_concat(s, blank, Seq::empty());
    }
}

/// The whitespace around a text adds no word: a text and what is left of
/// it when the whitespace at both ends is taken off have the same words.
pub proof fn lemma_words_of_trimmed(s: Seq<char>)
    ensures
        words(trimmed(s)) == words(s),
{
    lemma_words_of_trimmed_start(s);
    lemma_words_of_trimmed_end(trimmed_start(s));
}

proof fn lemma_words_of_trimmed_start(s: Seq<char>)
    ensures
        words(trimmed_start(s)) == words(s),
    decreases s.len(),
{
    if s.len() > 0 && is_whitespace(s[0]) {
        lemma_words_of_trimmed_start(s.skip(1));
    }
}

proof fn lemma_words_of_trimmed_end(s: Seq<char>)
    ensures
        words(trimmed_end(s)) == words(s),
    decreases s.len(),
{
    if s.len() > 0 && is_whitespace(s.last()) {
        lemma_words_of_trimmed_end(s.drop_last());
        lemma_words_before_blank(s.drop_last(), seq![s.last()]);
        assert(s.drop_last() + seq![s.last()] =~= s);
    }
}

/// Runs of whitespace collapse: which whitespace separates two texts, and
/// how much of it, makes no difference to the words.
pub proof fn lemma_whitespace_runs_collapse(
    a: Seq<char>,
    blank: Seq<char>,
    other_blank: Seq<char>,
    b: Seq<char>,
)
    requires
        is_blank(blank),
        blank.len() > 0,
        is_blank(other_blank),
        other_blank.len() > 0,
    ensures
        words(a + blank + b) == words(a + other_blank + b),
{
    lemma_words_concat(a, blank, b);
    lemma_words_concat(a, other_blank, b);
}

/// A text without whitespace is its own single word.
pub proof fn lemma_words_of_word(word: Seq<char>)
    requires
        is_word(word),
    ensures
        words(word) == seq![word],
{
    lemma_words_from(word, 0, word.len() as int);
    assert(word.subrange(0, word.len() as int) =~= word);
}

/// A text has no words exactly where it is blank.
pub proof fn lemma_words_empty_iff_blank(s: Seq<char>)
    ensures
        words(s).len() == 0 <==> is_blank(s),
    decreases s.len(),
{
    if s.len() > 0 && is_whitespace(s[0]) {
        let rest = s.skip(1);
        lemma_words_empty_iff_blank(rest);
        if is_blank(rest) {
            assert forall|i: int| 0 <= i < s.len() implies is_whitespace(#[trigger] s[i]) by {
                if i > 0 {
                    assert(s[i] == rest[i - 1]);
                }
            }
        }
        if is_blank(s) {
            assert(is_blank(rest));
        }
    }
}

/// Every word of a text is a word: it is not empty and holds no whitespace.
pub proof fn lemma_words_are_words(s: Seq<char>)
    ensures
        forall|i: int| 0 <= i < words(s).len() ==> is_word(#[trigger] words(s)[i]),
    decreases s.len(),
{
    if s.len() == 0 {
    } else if is_whitespace(s[0]) {
        lemma_words_are_words(s.skip(1));
        assert(words(s) == words(s.skip(1)));
    } else {
        let k = word_len(s) as int;
        lemma_word_len_bounds(s);
        lemma_word_len_maximal(s);
        lemma_words_are_words(s.skip(k));
        let first = s.take(k);
        assert(is_word(first));
        assert forall|i: int| 0 <= i < words(s).len() implies is_word(#[trigger] words(s)[i]) by {
            if i > 0 {
                assert(words(s)[i] == words(s.skip(k))[i - 1]);
            }
        }
    }
}

/// Whether `s` is `lead`, `word` and `rest` in this order, with `lead` blank
/// and `rest` empty or starting with whitespace.
pub open spec fn starts_with_word(
    s: Seq<char>,
    lead: Seq<char>,
    word: Seq<char>,
    rest: Seq<char>,
) -> bool {
    &&& s == lead + word + rest
    &&& is_blank(lead)
    &&& rest.len() == 0 || is_whitespace(rest[0])
}

/// A text that has words is whitespace, its first word, and a rest that is
/// empty or starts with whitespace and holds the other words.
pub proof fn lemma_words_split_first(s: Seq<char>)
    requires
        words(s).len() > 0,
    ensures
        exists|lead: Seq<char>, rest: Seq<char>| #[trigger]
            starts_with_word(s, lead, words(s)[0], rest) && words(rest) == words(s).skip(1),
    decreases s.len(),
{
    let first = words(s)[0];
    if is_whitespace(s[0]) {
        let tail = s.skip(1);
        lemma_words_split_first(tail);
        let (lead, rest) = choose|lead: Seq<char>, rest: Seq<char>| #[trigger]
            starts_with_word(tail, lead, first, rest) && words(rest) == words(tail).skip(1);
        let longer = seq![s[0]] + lead;
        assert(s =~= seq![s[0]] + tail);
        assert(longer + first + rest =~= seq![s[0]] + (lead + first + rest));
        assert(is_blank(longer));
        assert(starts_with_word(s, longer, first, rest));
    } else {
        let k = word_len(s) as int;
        lemma_word_len_bounds(s);
        lemma_word_len_maximal(s);
        let lead = Seq::<char>::empty();
        let rest = s.skip(k);
        assert(lead + first + rest =~= s);
        assert(starts_with_word(s, lead, first, rest));
    }
}

/// Whether `s` is the seven texts in this order, of which `first`, `second`
/// and `third` are words, `gap` and `other_gap` are whitespace, and `lead`
/// and `trail` are whitespace or empty.
pub open spec fn is_three_fields(
    s: Seq<char>,
    lead: Seq<char>,
    first: Seq<char>,
    gap: Seq<char>,
    second: Seq<char>,
    other_gap: Seq<char>,
    third: Seq<char>,
    trail: Seq<char>,
) -> bool {
    &&& s == lead + first + gap + second + other_gap + third + trail
    &&& is_blank(lead)
    &&& is_word(first)
    &&& is_blank(gap) && gap.len() > 0
    &&& is_word(second)
    &&& is_blank(other_gap) && other_gap.len() > 0
    &&& is_word(third)
    &&& is_blank(trail)
}

/// Three words with whitespace between them, and any whitespace before and
/// after them, are the words of the text they make up.
pub proof fn lemma_words_of_three_fields(
    s: Seq<char>,
    lead: Seq<char>,
    first: Seq<char>,
    gap: Seq<char>,
    second: Seq<char>,
    other_gap: Seq<char>,
    third: Seq<char>,
    trail: Seq<char>,
)
    requires
        is_three_fields(s, lead, first, gap, second, other_gap, third, trail),
    ensures
        words(s) == seq![first, second, third],
{
    let front = lead + first;
    let back = second + other_gap + (third + trail);
    assert(s =~= front + gap + back);
    lemma_words_concat(front, gap, back);
    lemma_words_after_blank(lead, first);
    lemma_words_of_word(first);
    lemma_words_concat(second, other_gap, third + trail);
    lemma_words_of_word(second);
    lemma_words_before_blank(third, trail);
    lemma_words_of_word(third);
}

/// Whether `s` consists of three words with whitespace between them, and
/// possibly whitespace before and after them.
pub open spec fn has_three_fields(s: Seq<char>) -> bool {
    exists|
        lead: Seq<char>,
        first: Seq<char>,
        gap: Seq<char>,
        second: Seq<char>,
        other_gap: Seq<char>,
        third: Seq<char>,
        trail: Seq<char>,
    |
        is_three_fields(s, lead, first, gap, second, other_gap, third, trail)
}

/// A text has exactly three words where it consists of three words with
/// whitespace between and around them, and only there.
pub proof fn lemma_three_words_iff_three_fields(s: Seq<char>)
    ensures
        words(s).len() == 3 <==> has_three_fields(s),
{
    if has_three_fields(s) {
        let (lead, first, gap, second, other_gap, third, trail) = choose|
            lead: Seq<char>,
            first: Seq<char>,
            gap: Seq<char>,
            second: Seq<char>,
            other_gap: Seq<char>,
            third: Seq<char>,
            trail: Seq<char>,
        |
            is_three_fields(s, lead, first, gap, second, other_gap, third, trail);
        lemma_words_of_three_fields(s, lead, first, gap, second, other_gap, third, trail);
    }
    if words(s).len() == 3 {
        let first = words(s)[0];
        let second = words(s)[1];
        let third = words(s)[2];
        lemma_words_are_words(s);
        lemma_words_split_first(s);
        let (lead, after_first) = choose|lead: Seq<char>, rest: Seq<char>| #[trigger]
            starts_with_word(s, lead, first, rest) && words(rest) == words(s).skip(1);
        lemma_words_split_first(after_first);
        let (gap, after_second) = choose|lead: Seq<char>, rest: Seq<char>| #[trigger]
            starts_with_word(after_first, lead, second, rest) && words(rest) == words(
                after_first,
            ).skip(1);
        assert(gap.len() > 0);
        lemma_words_split_first(after_second);
        let (other_gap, trail) = choose|lead: Seq<char>, rest: Seq<char>| #[trigger]
            starts_with_word(after_second, lead, third, rest) && words(rest) == words(
                after_second,
            ).skip(1);
        assert(other_gap.len() > 0);
        lemma_words_empty_iff_blank(trail);
        assert(lead + first + gap + second + other_gap + third + trail =~= s);
        assert(is_three_fields(s, lead, first, gap, second, other_gap, third, trail));
    }
}

} // verus!

//! Removing the whitespace around a text.

use vstd::prelude::*;
use crate::whitespace::{char_is_whitespace, is_whitespace};

verus! {

/// `s` without the whitespace at its front.
pub open spec fn trimmed_start(s: Seq<char>) -> Seq<char>
    decreases s.len(),
{
    if s.len() > 0 && is_whitespace(s[0]) {
        trimmed_start(s.skip(1))
    } else {
        s
    }
}

/// `s` without the whitespace at its end.
pub open spec fn trimmed_end(s: Seq<char>) -> Seq<char>
    decreases s.len(),
{
    if s.len() > 0 && is_whitespace(s.last()) {
        trimmed_end(s.drop_last())
    } else {
        s
    }
}

/// `s` without the whitespace at its front and at its end.
pub open spec fn trimmed(s: Seq<char>) -> Seq<char> {
    trimmed_end(trimmed_start(s))
}

/// Taking `k` whitespace characters off the front of `s` trims its start,
/// where what follows them does not start with whitespace.
pub proof fn lemma_trimmed_start_is(s: Seq<char>, k: int)
    requires
        0 <= k <= s.len(),
        forall|j: int| 0 <= j < k ==> is_whitespace(#[trigger] s[j]),
        k == s.len() || !is_whitespace(s[k]),
    ensures
        trimmed_start(s) == s.skip(k),
    decreases k,
{
    if k > 0 {
        let rest = s.skip(1);
        assert(forall|j: int| 0 <= j < k - 1 ==> is_whitespace(#[trigger] rest[j]));
        lemma_trimmed_start_is(rest, k - 1);
    }
}

/// Keeping the first `k` characters of `s` trims its end, where all that
/// follows them is whitespace and they do not end with whitespace.
pub proof fn lemma_trimmed_end_is(s: Seq<char>, k: int)
    requires
        0 <= k <= s.len(),
        forall|j: int| k <= j < s.len() ==> is_whitespace(#[trigger] s[j]),
        k == 0 || !is_whitespace(s[k - 1]),
    ensures
        trimmed_end(s) == s.take(k),
    decreases s.len() - k,
{
    if k < s.len() {
        lemma_trimmed_end_is(s.drop_last(), k);
    }
}

/// Returns the part of `line` between the whitespace at its front and the
/// whitespace at its end: nothing where `line` is blank.
pub fn trim<'a>(line: &'a str) -> (r: &'a str)
    ensures
        r@ == trimmed(line@),
{
    let n = line.unicode_len();
    let mut found = false;
    let mut first: usize = 0;
    let mut end: usize = 0;
    let mut i: usize = 0;
    for c in it: line.chars()
        invariant
            it.seq() == line@,
            i == it.index(),
            n == line@.len(),
            !found ==> first == 0 && end == 0,
            !found ==> forall|j: int| 0 <= j < i ==> is_whitespace(#[trigger] line@[j]),
            found ==> first < end <= i,
            found ==> forall|j: int| 0 <= j < first ==> is_whitespace(#[trigger] line@[j]),
            found ==> !is_whitespace(line@[first as int]),
            found ==> !is_whitespace(line@[end - 1]),
            found ==> forall|j: int| end <= j < i ==> is_whitespace(#[trigger] line@[j]),
    {
        if !char_is_whitespace(c) {
            if !found {
                found = true;
                first = i;
            }
            end = i + 1;
        }
        i += 1;
    }
    proof {
        let s = line@;
        if found {
            lemma_trimmed_start_is(s, first as int);
            let tail = s.skip(first as int);
            assert(forall|j: int|
                end - first <= j < tail.len() ==> is_whitespace(#[trigger] tail[j]));
            lemma_trimmed_end_is(tail, end - first);
        } else {
            lemma_trimmed_start_is(s, n as int);
        }
    }
    line.substring_char(first, end)
}

} // verus!

//! Recognizing the request to stop.
//!
//! A line is such a request where, with the whitespace around it removed, it
//! is the word `quit` in any mixture of upper and lower case.

use vstd::prelude::*;
use vstd::std_specs::iter::IteratorSpec;
use crate::trim::{trim, trimmed};

verus! {

/// `c` with the upper-case letters `A` to `Z` mapped to `a` to `z`, and
/// every other character left as it is.
pub open spec fn ascii_lowercase(c: char) -> char {
    if 'A' <= c <= 'Z' {
        ((c as u8) + 32) as char
    } else {
        c
    }
}

/// Whether `a` and `b` are the same but for the case of the letters `A` to
/// `Z`.
pub open spec fn same_ignoring_ascii_case(a: Seq<char>, b: Seq<char>) -> bool {
    &&& a.len() == b.len()
    &&& forall|i: int|
        0 <= i < a.len() ==> ascii_lowercase(#[trigger] a[i]) == ascii_lowercase(b[i])
}

/// The word that asks the calculator to stop.
pub open spec fn exit_keyword() -> Seq<char> {
    seq!['q', 'u', 'i', 't']
}

/// Whether `line` asks the calculator to stop.
pub open spec fn is_exit_request(line: Seq<char>) -> bool {
    same_ignoring_ascii_case(trimmed(line), exit_keyword())
}

/// Maps an upper-case ASCII letter to its lower-case form.
pub fn to_ascii_lowercase(c: char) -> (r: char)
    ensures
        r == ascii_lowercase(c),
{
    if 'A' <= c && c <= 'Z' {
        ((c as u8) + 32) as char
    } else {
        c
    }
}

/// Compares `a` and `b` without regard to the case of ASCII letters.
pub fn eq_ignore_ascii_case(a: &str, b: &str) -> (r: bool)
    ensures
        r == same_ignoring_ascii_case(a@, b@),
{
    let mut others = b.chars();
    let ghost mut i: int = 0;
    for c in it: a.chars()
        invariant
            it.seq() == a@,
            i == it.index(),
            i <= b@.len(),
            others.remaining() == b@.skip(i),
            forall|j: int|
                0 <= j < i ==> ascii_lowercase(#[trigger] a@[j]) == ascii_lowercase(b@[j]),
    {
        match others.next() {
            Some(other) => {
                if to_ascii_lowercase(c) != to_ascii_lowercase(other) {
                    return false;
                }
            },
            None => {
                return false;
            },
        }
        proof {
            i = i + 1;
        }
    }
    others.next().is_none()
}

/// Decides whether `line` asks the calculator to stop.
pub fn is_exit_command(line: &str) -> (r: bool)
    ensures
        r == is_exit_request(line@),
{
    proof {
        reveal_strlit("quit");
    }
    eq_ignore_ascii_case(trim(line), "quit")
}

/// The exit keyword is matched in every mixture of cases and in no other
/// spelling: a line asks to stop exactly where, trimmed, it consists of a
/// `q`, a `u`, an `i` and a `t`, each in upper or lower case.
pub proof fn lemma_exit_request_spellings(line: Seq<char>)
    ensures
        is_exit_request(line) <==> {
            let word = trimmed(line);
            &&& word.len() == 4
            &&& (word[0] == 'q' || word[0] == 'Q')
            &&& (word[1] == 'u' || word[1] == 'U')
            &&& (word[2] == 'i' || word[2] == 'I')
            &&& (word[3] == 't' || word[3] == 'T')
        },
{
}

} // verus!

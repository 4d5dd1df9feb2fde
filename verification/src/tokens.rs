//! Approximate token counting.
//!
//! A text is scored by counting each maximal run of word characters (ASCII
//! letters, digits and the underscore) as one token and each character that
//! is neither a word character nor whitespace as one token of its own;
//! whitespace contributes nothing. This is a heuristic proxy for a real
//! tokenizer and makes no claim of exactness; characters outside ASCII are
//! classified as non-word, an accepted approximation.

use vstd::prelude::*;

verus! {

/// A character that belongs to a word token: an ASCII letter, an ASCII
/// digit, or the underscore.
pub open spec fn is_word_char(c: char) -> bool {
    (97 <= c as u32 && c as u32 <= 122)  // 'a'..='z'
    || (65 <= c as u32 && c as u32 <= 90)  // 'A'..='Z'
    || (48 <= c as u32 && c as u32 <= 57)  // '0'..='9'
    || c as u32 == 95  // '_'
}

/// A whitespace character: space, tab, line feed, vertical tab, form feed,
/// or carriage return.
pub open spec fn is_space_char(c: char) -> bool {
    c as u32 == 32 || (9 <= c as u32 && c as u32 <= 13)
}

/// How many tokens the character at position `i` of `s` opens: one for a
/// word character that starts a run, one for any character that is neither
/// word nor whitespace, none otherwise.
pub open spec fn token_cost(s: Seq<char>, i: int) -> nat {
    if is_word_char(s[i]) {
        if i == 0 || !is_word_char(s[i - 1]) {
            1nat
        } else {
            0nat
        }
    } else if is_space_char(s[i]) {
        0nat
    } else {
        1nat
    }
}

/// The approximate token count of a text: one per maximal run of word
/// characters plus one per character that is neither word nor whitespace.
pub open spec fn token_count(s: Seq<char>) -> nat
    decreases s.len(),
{
    if s.len() == 0 {
        0nat
    } else {
        token_count(s.drop_last()) + token_cost(s, s.len() - 1)
    }
}

fn word_char(c: char) -> (r: bool)
    ensures
        r == is_word_char(c),
{
    let u = c as u32;
    (97 <= u && u <= 122) || (65 <= u && u <= 90) || (48 <= u && u <= 57) || u == 95
}

fn space_char(c: char) -> (r: bool)
    ensures
        r == is_space_char(c),
{
    let u = c as u32;
    u == 32 || (9 <= u && u <= 13)
}

/// Counts the approximate number of tokens in the given text: one per
/// maximal run of word characters and one per standalone character that is
/// neither a word character nor whitespace.
pub fn count_tokens(text: &str) -> (count: usize)
    ensures
        count == token_count(text@),
{
    let n = text.unicode_len();
    let mut count: usize = 0;
    let mut i: usize = 0;
    let mut prev_word = false;
    while i < n
        invariant
            n == text@.len(),
            i <= n,
            count == token_count(text@.take(i as int)),
            count <= i,
            prev_word == (i > 0 && is_word_char(text@[i as int - 1])),
        decreases n - i,
    {
        let c = text.get_char(i);
        let w = word_char(c);
        if w {
            if !prev_word {
                count = count + 1;
            }
        } else if !space_char(c) {
            count = count + 1;
        }
        proof {
            let pre = text@.take(i as int);
            let ext = text@.take(i as int + 1);
            assert(ext.drop_last() =~= pre);
            assert(ext[i as int] == text@[i as int]);
            assert(token_count(ext) == token_count(pre) + token_cost(ext, i as int));
        }
        prev_word = w;
        i = i + 1;
    }
    proof {
        assert(text@.take(n as int) =~= text@);
    }
    count
}

/// The estimate is a function of the text alone: two results computed from
/// equal texts are equal, so repeated calls of `count_tokens` agree.
pub proof fn lemma_count_deterministic(s1: Seq<char>, s2: Seq<char>, r1: nat, r2: nat)
    requires
        s1 == s2,
        r1 == token_count(s1),
        r2 == token_count(s2),
    ensures
        r1 == r2,
{
}

/// The empty text holds no tokens.
pub proof fn lemma_count_empty()
    ensures
        token_count(Seq::<char>::empty()) == 0,
{
}

} // verus!

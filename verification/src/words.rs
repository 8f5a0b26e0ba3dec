//! Command lines: a program name and its arguments, separated by white space.
use vstd::prelude::*;
use crate::text::{
    chars_of, lemma_run_len, lemma_run_len_bounds, lemma_run_stops, run_len, string_of,
};

verus! {

/// Whether `char::is_whitespace` holds of `c`: whether `c` has the Unicode
/// property White_Space.
pub uninterp spec fn is_whitespace(c: char) -> bool;

/// `char::is_whitespace` depends on the character alone.
pub assume_specification[ char::is_whitespace ](c: char) -> (b: bool)
    ensures
        b == is_whitespace(c),
;

/// The length of the word that `s` starts with: the characters before its
/// first white space.
pub open spec fn word_len(s: Seq<char>) -> nat {
    run_len(s, |c: char| is_whitespace(c))
}

/// The words of `s`: its longest stretches free of white space, from left to
/// right. White space before, between and after them belongs to no word.
pub open spec fn words(s: Seq<char>) -> Seq<Seq<char>>
    decreases s.len(),
{
    if s.len() == 0 {
        Seq::empty()
    } else if is_whitespace(s[0]) {
        words(s.drop_first())
    } else {
        proof {
            lemma_run_len_bounds(s, |c: char| is_whitespace(c));
        }
        seq![s.take(word_len(s) as int)] + words(s.skip(word_len(s) as int))
    }
}

/// Whether `word` holds at least one character, and no white space.
pub open spec fn is_solid(word: Seq<char>) -> bool {
    &&& word.len() > 0
    &&& forall|k: int| 0 <= k < word.len() ==> !is_whitespace(#[trigger] word[k])
}

/// Every word holds at least one character, and no white space.
pub proof fn lemma_words_are_solid(s: Seq<char>)
    ensures
        forall|i: int| 0 <= i < words(s).len() ==> is_solid(#[trigger] words(s)[i]),
    decreases s.len(),
{
    if s.len() == 0 {
    } else if is_whitespace(s[0]) {
        lemma_words_are_solid(s.drop_first());
        assert(words(s) == words(s.drop_first()));
    } else {
        let stop = |c: char| is_whitespace(c);
        lemma_run_len_bounds(s, stop);
        lemma_run_stops(s, stop);
        let first = s.take(word_len(s) as int);
        let rest = words(s.skip(word_len(s) as int));
        lemma_words_are_solid(s.skip(word_len(s) as int));
        assert(words(s) == seq![first] + rest);
        assert(is_solid(first)) by {
            assert forall|k: int| 0 <= k < first.len() implies !is_whitespace(
                #[trigger] first[k],
            ) by {
                assert(first[k] == s[k]);
            }
        }
        assert forall|i: int| 0 <= i < words(s).len() implies is_solid(#[trigger] words(s)[i]) by {
            if i == 0 {
                assert(words(s)[0] == first);
            } else {
                assert(words(s)[i] == rest[i - 1]);
            }
        }
    }
}

/// Splits `s` at white space and returns the words between, in order.
pub fn split_whitespace(s: &str) -> (parts: Vec<String>)
    ensures
        parts.deep_view() == words(s@),
{
    let chars = chars_of(s);
    let n = chars.len();
    let mut parts: Vec<String> = Vec::new();
    let mut i: usize = 0;
    assert(s@.skip(0) == s@);
    assert(parts.deep_view() == Seq::<Seq<char>>::empty());
    while i < n
        invariant
            chars@ == s@,
            n == chars.len(),
            i <= n,
            words(s@) == parts.deep_view() + words(s@.skip(i as int)),
        decreases n - i,
    {
        let ghost rest = s@.skip(i as int);
        if chars[i].is_whitespace() {
            assert(rest.drop_first() == s@.skip(i + 1));
            i += 1;
        } else {
            let start = i;
            while i < n && !chars[i].is_whitespace()
                invariant
                    chars@ == s@,
                    n == chars.len(),
                    start <= i <= n,
                    forall|k: int| start <= k < i ==> !is_whitespace(#[trigger] s@[k]),
                decreases n - i,
            {
                i += 1;
            }
            let word = string_of(&chars, start, i);
            proof {
                let stop = |c: char| is_whitespace(c);
                assert forall|k: int| 0 <= k < i - start implies !stop(#[trigger] rest[k]) by {
                    assert(rest[k] == s@[start + k]);
                }
                lemma_run_len(rest, stop, i - start);
                assert(rest.take(i - start) == s@.subrange(start as int, i as int));
                assert(rest.skip(i - start) == s@.skip(i as int));
                assert(parts.deep_view().push(word@) == parts.deep_view() + seq![word@]);
            }
            let ghost before = parts.deep_view();
            parts.push(word);
            assert(parts.deep_view() == before.push(word@));
        }
    }
    assert(s@.skip(n as int).len() == 0);
    parts
}

} // verus!

//! Splitting text into whitespace-separated words.

use vstd::prelude::*;
use vstd::std_specs::iter::IteratorSpec;

verus! {

/// The characters that separate words: those with the Unicode property
/// `White_Space`.
pub open spec fn is_space(c: char) -> bool {
    let u = c as u32;
    ||| 0x09 <= u <= 0x0d
    ||| u == 0x20
    ||| u == 0x85
    ||| u == 0xa0
    ||| u == 0x1680
    ||| 0x2000 <= u <= 0x200a
    ||| u == 0x2028
    ||| u == 0x2029
    ||| u == 0x202f
    ||| u == 0x205f
    ||| u == 0x3000
}

/// The length of the run of characters at the start of `s` that are not
/// spaces.
pub open spec fn first_word_len(s: Seq<char>) -> nat
    decreases s.len(),
{
    if s.len() == 0 || is_space(s[0]) {
        0
    } else {
        1 + first_word_len(s.drop_first())
    }
}

/// The words of `s`: its maximal runs of characters that are not spaces,
/// from left to right.
pub open spec fn words(s: Seq<char>) -> Seq<Seq<char>>
    decreases s.len(),
{
    if s.len() == 0 {
        Seq::empty()
    } else if is_space(s[0]) {
        words(s.drop_first())
    } else {
        let n = first_word_len(s) as int;
        if 0 < n <= s.len() {
            seq![s.take(n)] + words(s.skip(n))
        } else {
            Seq::empty()
        }
    }
}

/// The views of the vectors in `v`, in order.
pub open spec fn views(v: Seq<Vec<char>>) -> Seq<Seq<char>> {
    Seq::new(v.len(), |i: int| v[i]@)
}

/// A run of non-spaces is no longer than the text it starts.
pub proof fn lemma_first_word_len_bound(s: Seq<char>)
    ensures
        first_word_len(s) <= s.len(),
        s.len() > 0 && !is_space(s[0]) ==> first_word_len(s) > 0,
        forall|k: int| 0 <= k < first_word_len(s) ==> !is_space(#[trigger] s[k]),
        first_word_len(s) < s.len() ==> is_space(s[first_word_len(s) as int]),
    decreases s.len(),
{
    if s.len() == 0 || is_space(s[0]) {
    } else {
        let t = s.drop_first();
        lemma_first_word_len_bound(t);
        assert forall|k: int| 0 <= k < first_word_len(s) implies !is_space(#[trigger] s[k]) by {
            if k > 0 {
                assert(s[k] == t[k - 1]);
            }
        }
        if first_word_len(s) < s.len() {
            assert(s[first_word_len(s) as int] == t[first_word_len(t) as int]);
        }
    }
}

/// A word: at least one character, and no space among them.
pub open spec fn is_word(w: Seq<char>) -> bool {
    w.len() > 0 && forall|k: int| 0 <= k < w.len() ==> !is_space(#[trigger] w[k])
}

/// Every element of `words(s)` is a word.
pub proof fn lemma_words_are_words(s: Seq<char>)
    ensures
        forall|i: int| 0 <= i < words(s).len() ==> is_word(#[trigger] words(s)[i]),
    decreases s.len(),
{
    if s.len() == 0 {
        assert(words(s).len() == 0);
    } else if is_space(s[0]) {
        lemma_words_are_words(s.drop_first());
        assert(words(s) == words(s.drop_first()));
    } else {
        lemma_first_word_len_bound(s);
        let n = first_word_len(s) as int;
        let first = s.take(n);
        let rest = words(s.skip(n));
        lemma_words_are_words(s.skip(n));
        assert(words(s) == seq![first] + rest);
        assert(is_word(first)) by {
            assert forall|k: int| 0 <= k < first.len() implies !is_space(#[trigger] first[k]) by {
                assert(first[k] == s[k]);
            }
        }
        assert forall|i: int| 0 <= i < words(s).len() implies is_word(#[trigger] words(s)[i]) by {
            if i == 0 {
                assert(words(s)[0] == first);
            } else {
                assert(words(s)[i] == rest[i - 1]);
            }
        }
    }
}

/// Whether `c` separates words.
pub fn is_whitespace(c: char) -> (b: bool)
    ensures
        b == is_space(c),
{
    let u: u32 = c as u32;
    (0x09 <= u && u <= 0x0d) || u == 0x20 || u == 0x85 || u == 0xa0 || u == 0x1680 || (0x2000 <= u
        && u <= 0x200a) || u == 0x2028 || u == 0x2029 || u == 0x202f || u == 0x205f || u == 0x3000
}

/// The characters of a string, in order.
pub fn chars_of(s: &str) -> (v: Vec<char>)
    ensures
        v@ == s@,
{
    broadcast use vstd::string::group_string_axioms;

    let mut v: Vec<char> = Vec::new();
    let mut it = s.chars();
    loop
        invariant
            v@ + it.remaining() == s@,
            it.obeys_prophetic_iter_laws(),
        ensures
            v@ == s@,
        decreases s@.len() - v@.len(),
    {
        match it.next() {
            Some(c) => {
                v.push(c);
            },
            None => {
                break ;
            },
        }
    }
    v
}

/// Splits a string at its white space and returns the words between.
pub fn split_whitespace(s: &str) -> (r: Vec<Vec<char>>)
    ensures
        views(r@) == words(s@),
        forall|i: int| 0 <= i < r@.len() ==> is_word(#[trigger] r@[i]@),
{
    let cs = chars_of(s);
    let n = cs.len();
    let mut out: Vec<Vec<char>> = Vec::new();
    let mut i: usize = 0;
    proof {
        assert(cs@.skip(0) == cs@);
        assert(views(out@) + words(cs@.skip(0)) == words(cs@));
    }
    while i < n
        invariant
            n == cs@.len(),
            i <= n,
            views(out@) + words(cs@.skip(i as int)) == words(cs@),
        decreases n - i,
    {
        let ghost rest = cs@.skip(i as int);
        assert(rest[0] == cs@[i as int]);
        if is_whitespace(cs[i]) {
            assert(rest.drop_first() == cs@.skip(i + 1));
            i = i + 1;
        } else {
            let mut word: Vec<char> = Vec::new();
            let mut j: usize = i;
            proof {
                assert(cs@.skip(j as int) == rest);
            }
            while j < n && !is_whitespace(cs[j])
                invariant
                    n == cs@.len(),
                    i <= j <= n,
                    rest == cs@.skip(i as int),
                    word@ == cs@.subrange(i as int, j as int),
                    first_word_len(rest) == (j - i) + first_word_len(cs@.skip(j as int)),
                decreases n - j,
            {
                let ghost tail = cs@.skip(j as int);
                assert(tail[0] == cs@[j as int]);
                assert(tail.drop_first() == cs@.skip(j + 1));
                word.push(cs[j]);
                j = j + 1;
                assert(word@ == cs@.subrange(i as int, j as int));
            }
            proof {
                let tail = cs@.skip(j as int);
                if j < n {
                    assert(tail[0] == cs@[j as int]);
                }
                assert(first_word_len(tail) == 0);
                assert(first_word_len(rest) == j - i);
                assert(rest.take(j - i) == cs@.subrange(i as int, j as int));
                assert(rest.skip(j - i) == cs@.skip(j as int));
                lemma_first_word_len_bound(rest);
                let ghost before = views(out@);
                assert(words(rest) == seq![word@] + words(tail));
                assert(views(out@.push(word)) == before.push(word@));
                assert(before.push(word@) + words(tail) == before + (seq![word@] + words(tail)));
            }
            out.push(word);
            i = j;
        }
    }
    proof {
        assert(cs@.skip(n as int).len() == 0);
        assert(views(out@) + Seq::<Seq<char>>::empty() == views(out@));
        lemma_words_are_words(cs@);
        assert forall|i: int| 0 <= i < out@.len() implies is_word(#[trigger] out@[i]@) by {
            assert(views(out@)[i] == out@[i]@);
        }
    }
    out
}

/// Whether two vectors hold the same characters.
pub fn same_chars(a: &Vec<char>, b: &Vec<char>) -> (r: bool)
    ensures
        r == (a@ == b@),
{
    if a.len() != b.len() {
        return false;
    }
    let mut i: usize = 0;
    while i < a.len()
        invariant
            a@.len() == b@.len(),
            i <= a@.len(),
            a@.take(i as int) == b@.take(i as int),
        decreases a@.len() - i,
    {
        if a[i] != b[i] {
            return false;
        }
        assert(a@.take(i + 1) == a@.take(i as int).push(a@[i as int]));
        assert(b@.take(i + 1) == b@.take(i as int).push(b@[i as int]));
        i = i + 1;
    }
    assert(a@.take(a@.len() as int) == a@);
    assert(b@.take(b@.len() as int) == b@);
    true
}

/// Whether a word is the given text.
pub fn word_is(word: &Vec<char>, text: &str) -> (r: bool)
    ensures
        r == (word@ == text@),
{
    let t = chars_of(text);
    same_chars(word, &t)
}

/// Whether two strings hold the same characters.
pub fn text_is(s: &str, text: &str) -> (r: bool)
    ensures
        r == (s@ == text@),
{
    let a = chars_of(s);
    let b = chars_of(text);
    same_chars(&a, &b)
}

} // verus!

use crate::whitespace::{blank, is_whitespace, letters, solid, whitespace};
use vstd::prelude::*;

verus! {

/// How many characters stand before the first whitespace of `s`:
/// the length of its longest solid prefix.
pub open spec fn word_len(s: Seq<char>) -> nat
    decreases s.len(),
{
    if s.len() == 0 || whitespace(s[0]) {
        0
    } else {
        1 + word_len(s.drop_first())
    }
}

/// The words of `s`: its maximal runs of non-whitespace characters, from
/// left to right.
pub open spec fn tokens(s: Seq<char>) -> Seq<Seq<char>>
    decreases s.len(),
    via tokens_terminates
{
    if s.len() == 0 {
        Seq::empty()
    } else if whitespace(s[0]) {
        tokens(s.drop_first())
    } else {
        seq![s.take(word_len(s) as int)] + tokens(s.skip(word_len(s) as int))
    }
}

#[via_fn]
proof fn tokens_terminates(s: Seq<char>) {
    lemma_word_len(s);
}

/// The longest solid prefix of `s` fits in `s`, is solid, is not empty
/// where `s` starts with a letter, and ends at whitespace or at the end.
pub proof fn lemma_word_len(s: Seq<char>)
    ensures
        word_len(s) <= s.len(),
        solid(s.take(word_len(s) as int)),
        word_len(s) < s.len() ==> whitespace(s[word_len(s) as int]),
        s.len() > 0 && !whitespace(s[0]) ==> word_len(s) > 0,
    decreases s.len(),
{
    if s.len() == 0 || whitespace(s[0]) {
    } else {
        let t = s.drop_first();
        lemma_word_len(t);
        let n = word_len(s) as int;
        assert forall|i: int| 0 <= i < n implies !whitespace(#[trigger] s.take(n)[i]) by {
            if i > 0 {
                assert(s.take(n)[i] == t.take(n - 1)[i - 1]);
            }
        }
    }
}

/// A solid run of `n` characters that ends at whitespace, or at the end
/// of `s`, is the longest solid prefix of `s`.
pub proof fn lemma_word_len_unique(s: Seq<char>, n: int)
    requires
        0 <= n <= s.len(),
        solid(s.take(n)),
        n < s.len() ==> whitespace(s[n]),
    ensures
        word_len(s) == n,
    decreases s.len(),
{
    if n == 0 {
    } else {
        let t = s.drop_first();
        assert(s.take(n)[0] == s[0]);
        assert forall|i: int| 0 <= i < n - 1 implies !whitespace(#[trigger] t.take(n - 1)[i]) by {
            assert(t.take(n - 1)[i] == s.take(n)[i + 1]);
        }
        lemma_word_len_unique(t, n - 1);
    }
}

/// Every word is non-empty and holds no whitespace.
pub proof fn lemma_tokens_solid(s: Seq<char>)
    ensures
        forall|i: int|
            0 <= i < tokens(s).len() ==> (#[trigger] tokens(s)[i]).len() > 0 && solid(
                tokens(s)[i],
            ),
    decreases s.len(),
{
    if s.len() == 0 {
    } else if whitespace(s[0]) {
        lemma_tokens_solid(s.drop_first());
        assert(tokens(s) == tokens(s.drop_first()));
    } else {
        let n = word_len(s) as int;
        let rest = tokens(s.skip(n));
        lemma_word_len(s);
        lemma_tokens_solid(s.skip(n));
        assert forall|i: int| 0 <= i < tokens(s).len() implies (#[trigger] tokens(s)[i]).len() > 0
            && solid(tokens(s)[i]) by {
            if i == 0 {
                assert(tokens(s)[0] == s.take(n));
            } else {
                assert(tokens(s)[i] == rest[i - 1]);
            }
        }
    }
}

/// A text has no words exactly when it is blank.
pub proof fn lemma_tokens_none_iff_blank(s: Seq<char>)
    ensures
        tokens(s).len() == 0 <==> blank(s),
    decreases s.len(),
{
    if s.len() == 0 {
    } else if whitespace(s[0]) {
        let t = s.drop_first();
        lemma_tokens_none_iff_blank(t);
        if blank(t) {
            assert forall|i: int| 0 <= i < s.len() implies whitespace(#[trigger] s[i]) by {
                if i > 0 {
                    assert(s[i] == t[i - 1]);
                }
            }
        }
        if blank(s) {
            assert forall|i: int| 0 <= i < t.len() implies whitespace(#[trigger] t[i]) by {}
        }
    }
}

/// A non-empty text without whitespace is its own single word.
pub proof fn lemma_tokens_of_word(w: Seq<char>)
    requires
        w.len() > 0,
        solid(w),
    ensures
        tokens(w) == seq![w],
{
    let n = w.len() as int;
    assert(w.take(n) == w);
    lemma_word_len_unique(w, n);
    assert(tokens(w.skip(n)) == Seq::<Seq<char>>::empty());
}

/// Whitespace separates words and nothing else does: the words of `a`, one
/// whitespace character and `b` in a row are the words of `a` followed by
/// the words of `b`.
pub proof fn lemma_tokens_split(a: Seq<char>, c: char, b: Seq<char>)
    requires
        whitespace(c),
    ensures
        tokens(a.push(c) + b) == tokens(a) + tokens(b),
    decreases a.len(),
{
    let s = a.push(c) + b;
    if a.len() == 0 {
        assert(s.drop_first() == b);
    } else if whitespace(a[0]) {
        assert(s.drop_first() == a.drop_first().push(c) + b);
        lemma_tokens_split(a.drop_first(), c, b);
    } else {
        let n = word_len(a) as int;
        lemma_word_len(a);
        assert(s.take(n) == a.take(n));
        lemma_word_len_unique(s, n);
        assert(s.skip(n) == a.skip(n).push(c) + b);
        lemma_tokens_split(a.skip(n), c, b);
    }
}

/// Taking the whitespace out of a text without whitespace changes nothing.
proof fn lemma_letters_of_solid(s: Seq<char>)
    requires
        solid(s),
    ensures
        letters(s) == s,
    decreases s.len(),
{
    reveal(Seq::filter);
    if s.len() > 0 {
        let t = s.drop_last();
        assert forall|i: int| 0 <= i < t.len() implies !whitespace(#[trigger] t[i]) by {}
        lemma_letters_of_solid(t);
    }
}

/// Splitting loses no character but whitespace and moves none: the words
/// in a row are the text with its whitespace taken out.
pub proof fn lemma_tokens_keep_letters(s: Seq<char>)
    ensures
        tokens(s).flatten() == letters(s),
    decreases s.len(),
{
    let keep = |c: char| !whitespace(c);
    if s.len() == 0 {
        reveal(Seq::filter);
    } else if whitespace(s[0]) {
        let t = s.drop_first();
        lemma_tokens_keep_letters(t);
        t.lemma_filter_prepend(s[0], keep);
        assert(seq![s[0]] + t == s);
    } else {
        let n = word_len(s) as int;
        let (word, rest) = (s.take(n), s.skip(n));
        lemma_word_len(s);
        lemma_tokens_keep_letters(rest);
        lemma_letters_of_solid(word);
        Seq::filter_distributes_over_add(word, rest, keep);
        assert(word + rest == s);
        assert((seq![word] + tokens(rest)).drop_first() == tokens(rest));
    }
}

/// Collects the characters of `s`.
fn chars_of(s: &str) -> (v: Vec<char>)
    ensures
        v@ == s@,
{
    let mut v: Vec<char> = Vec::new();
    for c in it: s.chars()
        invariant
            it.seq() == s@,
            v@ == it.seq().take(it.index() as int),
    {
        v.push(c);
    }
    v
}

/// Splits `line` into its words. Whitespace alone separates them: a
/// quote, a backslash or a dollar sign is a letter like any other.
pub fn tokenize(line: &str) -> (words: Vec<String>)
    ensures
        words.deep_view() == tokens(line@),
{
    let chars = chars_of(line);
    let n = chars.len();
    let mut words: Vec<String> = Vec::new();
    let mut i: usize = 0;
    assert(line@.skip(0) == line@);
    while i < n
        invariant
            i <= n,
            n == line@.len(),
            chars@ == line@,
            tokens(line@) == words.deep_view() + tokens(line@.skip(i as int)),
        decreases n - i,
    {
        let ghost rest = line@.skip(i as int);
        if is_whitespace(chars[i]) {
            assert(rest.drop_first() == line@.skip(i + 1));
            i += 1;
        } else {
            let start = i;
            while i < n && !is_whitespace(chars[i])
                invariant
                    start <= i <= n,
                    n == line@.len(),
                    chars@ == line@,
                    solid(line@.subrange(start as int, i as int)),
                decreases n - i,
            {
                i += 1;
            }
            let word = line.substring_char(start, i).to_owned();
            proof {
                let len = i - start;
                assert(rest.take(len) == line@.subrange(start as int, i as int));
                assert(rest.skip(len) == line@.skip(i as int));
                lemma_word_len_unique(rest, len);
            }
            words.push(word);
        }
    }
    words
}

} // verus!

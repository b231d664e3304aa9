//! Slugs: the form in which free text enters a branch name.
use crate::text::{ascii_lower, lowercase, to_lower};
use vstd::prelude::*;
use vstd::utf8::is_ascii_chars;

verus! {

/// The characters that a slug keeps: all but the apostrophe.
pub open spec fn kept() -> spec_fn(char) -> bool {
    |c: char| c != '\''
}

/// A space becomes a hyphen, every other character stays.
pub open spec fn dashed() -> spec_fn(char) -> char {
    |c: char|
        if c == ' ' {
            '-'
        } else {
            c
        }
}

/// `s` with its apostrophes removed and each space replaced by a hyphen.
pub open spec fn hyphenated(s: Seq<char>) -> Seq<char> {
    s.filter(kept()).map_values(dashed())
}

/// The slug of `s`: hyphenated, then lower-cased.
pub open spec fn slug_of(s: Seq<char>) -> Seq<char> {
    lowercase(hyphenated(s))
}

/// How often `c` occurs in `s`.
pub open spec fn occurrences(s: Seq<char>, c: char) -> nat
    decreases s.len(),
{
    if s.len() == 0 {
        0
    } else if s.last() == c {
        occurrences(s.drop_last(), c) + 1
    } else {
        occurrences(s.drop_last(), c)
    }
}

/// How `hyphenated` treats the last character of a text.
pub proof fn lemma_hyphenated_push(s: Seq<char>, c: char)
    ensures
        hyphenated(s.push(c)) == if c == '\'' {
            hyphenated(s)
        } else {
            hyphenated(s).push(dashed()(c))
        },
{
    reveal(Seq::filter);
    assert(s.push(c).drop_last() == s);
}

/// A hyphenated text holds neither an apostrophe nor a space.
pub proof fn lemma_hyphenated_clean(s: Seq<char>)
    ensures
        forall|i: int|
            0 <= i < hyphenated(s).len() ==> #[trigger] hyphenated(s)[i] != '\''
                && hyphenated(s)[i] != ' ',
{
    assert forall|i: int| 0 <= i < hyphenated(s).len() implies #[trigger] hyphenated(s)[i] != '\''
        && hyphenated(s)[i] != ' ' by {
        s.lemma_filter_pred(kept(), i);
    }
}

/// A text without apostrophes and spaces is its own hyphenated form.
pub proof fn lemma_hyphenated_fixed(s: Seq<char>)
    requires
        forall|i: int| 0 <= i < s.len() ==> #[trigger] s[i] != '\'' && s[i] != ' ',
    ensures
        hyphenated(s) == s,
    decreases s.len(),
{
    reveal(Seq::filter);
    if s.len() > 0 {
        lemma_hyphenated_fixed(s.drop_last());
        assert(s.drop_last().push(s.last()) == s);
        lemma_hyphenated_push(s.drop_last(), s.last());
    }
}

/// Hyphenating removes the apostrophes and nothing else, and turns each
/// space into one hyphen: the text is shorter by its apostrophes, and holds as
/// many hyphens as it held hyphens and spaces before.
pub proof fn lemma_hyphenated_counts(s: Seq<char>)
    ensures
        hyphenated(s).len() + occurrences(s, '\'') == s.len(),
        occurrences(hyphenated(s), '-') == occurrences(s, ' ') + occurrences(s, '-'),
    decreases s.len(),
{
    reveal(Seq::filter);
    if s.len() > 0 {
        let front = s.drop_last();
        lemma_hyphenated_counts(front);
        assert(front.push(s.last()) == s);
        lemma_hyphenated_push(front, s.last());
        if s.last() != '\'' {
            assert(hyphenated(s).drop_last() == hyphenated(front));
        }
    }
}

/// Lower-casing an ASCII text keeps its length and its hyphens.
pub proof fn lemma_ascii_lower_counts(s: Seq<char>)
    requires
        is_ascii_chars(s),
    ensures
        lowercase(s).len() == s.len(),
        occurrences(lowercase(s), '-') == occurrences(s, '-'),
    decreases s.len(),
{
    if s.len() > 0 {
        let front = s.drop_last();
        lemma_ascii_lower_counts(front);
        assert(lowercase(s).drop_last() == lowercase(front));
        assert(lowercase(s).last() == ascii_lower(s.last()));
    }
}

/// Hyphenating an ASCII text leaves it ASCII.
pub proof fn lemma_hyphenated_ascii(s: Seq<char>)
    requires
        is_ascii_chars(s),
    ensures
        is_ascii_chars(hyphenated(s)),
{
    let f = s.filter(kept());
    assert forall|i: int| 0 <= i < hyphenated(s).len() implies '\0' <= #[trigger] hyphenated(
        s,
    )[i] <= '\u{7f}' by {
        s.lemma_filter_contains_rev(kept(), f[i]);
    }
}

/// The slug of an ASCII text is ASCII and holds no apostrophe, no space and
/// no capital letter.
pub proof fn lemma_slug_clean_ascii(s: Seq<char>)
    requires
        is_ascii_chars(s),
    ensures
        is_ascii_chars(slug_of(s)),
        forall|i: int|
            0 <= i < slug_of(s).len() ==> {
                let c = #[trigger] slug_of(s)[i];
                c != '\'' && c != ' ' && !('A' <= c && c <= 'Z')
            },
{
    let plain = hyphenated(s);
    let slug = slug_of(s);
    lemma_hyphenated_ascii(s);
    lemma_hyphenated_clean(s);
    assert forall|i: int| 0 <= i < slug.len() implies {
        let c = #[trigger] slug[i];
        c != '\'' && c != ' ' && !('A' <= c && c <= 'Z') && '\0' <= c <= '\u{7f}'
    } by {
        assert(slug[i] == ascii_lower(plain[i]));
    }
}

/// The slug of an ASCII text is shorter than the text by its apostrophes, and
/// holds as many hyphens as the text held hyphens and spaces.
pub proof fn lemma_slug_counts_ascii(s: Seq<char>)
    requires
        is_ascii_chars(s),
    ensures
        slug_of(s).len() + occurrences(s, '\'') == s.len(),
        occurrences(slug_of(s), '-') == occurrences(s, ' ') + occurrences(s, '-'),
{
    lemma_hyphenated_counts(s);
    lemma_hyphenated_ascii(s);
    lemma_ascii_lower_counts(hyphenated(s));
}

/// The slug of an ASCII text is its own lower-case form.
pub proof fn lemma_slug_is_lower_ascii(s: Seq<char>)
    requires
        is_ascii_chars(s),
    ensures
        lowercase(slug_of(s)) == slug_of(s),
{
    lemma_slug_clean_ascii(s);
    assert(slug_of(s).map_values(|c: char| ascii_lower(c)) =~= slug_of(s));
}

/// On ASCII text, deriving the slug of a slug changes nothing.
pub proof fn lemma_slug_idempotent_ascii(s: Seq<char>)
    requires
        is_ascii_chars(s),
    ensures
        slug_of(slug_of(s)) == slug_of(s),
{
    lemma_slug_clean_ascii(s);
    lemma_hyphenated_fixed(slug_of(s));
    lemma_slug_is_lower_ascii(s);
}

/// Derives the slug of `name`: spaces become hyphens, apostrophes vanish, and
/// the result is lower-cased.
pub fn slugify(name: &str) -> (r: String)
    ensures
        r@ == slug_of(name@),
{
    let mut plain = String::new();
    proof {
        reveal(Seq::filter);
    }
    for c in it: name.chars()
        invariant
            it.seq() == name@,
            plain@ == hyphenated(name@.take(it.index())),
    {
        proof {
            lemma_hyphenated_push(name@.take(it.index()), c);
            assert(name@.take(it.index() + 1) == name@.take(it.index()).push(c));
        }
        if c == ' ' {
            plain.push('-');
        } else if c != '\'' {
            plain.push(c);
        }
    }
    assert(name@.take(name@.len() as int) == name@);
    to_lower(plain.as_str())
}

} // verus!

//! Operations on text that the standard library performs.

use vstd::prelude::*;

verus! {

/// What `replace_each` leaves of `s`: every occurrence of `from` gives way to
/// `to`, every other character stays where it is.
pub open spec fn replace_each(s: Seq<char>, from: char, to: Seq<char>) -> Seq<char>
    decreases s.len(),
{
    if s.len() == 0 {
        Seq::empty()
    } else {
        replace_each(s.drop_last(), from, to) + if s.last() == from {
            to
        } else {
            seq![s.last()]
        }
    }
}

/// Whether two texts hold the same characters.
pub(crate) fn same_text(a: &str, b: &str) -> (r: bool)
    ensures
        r == (a@ == b@),
{
    let left = a.to_owned();
    let right = b.to_owned();
    left == right
}

/// A copy of `s` in which `to` stands for every `from`.
///
/// Trusted: this is `str::replace` with a single character as its pattern,
/// which std documents as replacing all matches of the pattern and copying
/// the rest.
#[verifier::external_body]
fn replaced(s: &str, from: char, to: &str) -> (r: String)
    ensures
        r@ == replace_each(s@, from, to@),
{
    s.replace(from, to)
}

/// Where one character stands for another, a text is as long as before and
/// holds the new character wherever it held the old one.
pub proof fn lemma_replace_each_pointwise(s: Seq<char>, from: char, to: char)
    ensures
        replace_each(s, from, seq![to]).len() == s.len(),
        forall|i: int|
            0 <= i < s.len() ==> #[trigger] replace_each(s, from, seq![to])[i] == if s[i] == from {
                to
            } else {
                s[i]
            },
    decreases s.len(),
{
    if s.len() > 0 {
        lemma_replace_each_pointwise(s.drop_last(), from, to);
    }
}

/// Replacing one character by another a second time changes nothing more.
pub proof fn lemma_replace_each_settles(s: Seq<char>, from: char, to: char)
    requires
        from != to,
    ensures
        replace_each(replace_each(s, from, seq![to]), from, seq![to]) == replace_each(
            s,
            from,
            seq![to],
        ),
{
    let once = replace_each(s, from, seq![to]);
    lemma_replace_each_pointwise(s, from, to);
    lemma_replace_each_pointwise(once, from, to);
    assert(replace_each(once, from, seq![to]) =~= once);
}

/// The separators of `path` made uniform: a slash for every backslash.
pub open spec fn normalized(path: Seq<char>) -> Seq<char> {
    replace_each(path, '\\', seq!['/'])
}

/// Whether `s` is free of backslashes.
pub open spec fn is_uniform(s: Seq<char>) -> bool {
    forall|i: int| 0 <= i < s.len() ==> #[trigger] s[i] != '\\'
}

/// `text` with a slash for every backslash.
pub fn normalize_separators(text: &str) -> (r: String)
    ensures
        r@ == normalized(text@),
        r@.len() == text@.len(),
        is_uniform(r@),
        is_uniform(text@) ==> r@ == text@,
{
    proof {
        reveal_strlit("/");
        assert("/"@ =~= seq!['/']);
        lemma_replace_each_pointwise(text@, '\\', '/');
        if is_uniform(text@) {
            assert(normalized(text@) =~= text@);
        }
    }
    replaced(text, '\\', "/")
}

/// Making separators uniform a second time changes nothing: a path that was
/// stored is stored again as it is.
pub proof fn lemma_normalized_is_stable(path: Seq<char>)
    ensures
        normalized(normalized(path)) == normalized(path),
        is_uniform(normalized(path)),
{
    lemma_replace_each_settles(path, '\\', '/');
    lemma_replace_each_pointwise(path, '\\', '/');
}

} // verus!

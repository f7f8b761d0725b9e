//! Views of string vectors and the small helpers that fill them.

use vstd::prelude::*;

verus! {

/// The character sequences held by a sequence of strings, in order.
pub open spec fn texts(v: Seq<String>) -> Seq<Seq<char>> {
    v.map_values(|s: String| s@)
}

/// The characters of a string that may be absent.
pub open spec fn opt_text(s: Option<String>) -> Option<Seq<char>> {
    match s {
        Some(t) => Some(t@),
        None => None,
    }
}

/// Appending a string appends its characters' sequence to the view.
pub proof fn lemma_texts_push(v: Seq<String>, s: String)
    ensures
        texts(v.push(s)) == texts(v).push(s@),
{
    assert(texts(v.push(s)) =~= texts(v).push(s@));
}

/// The view of a concatenation is the concatenation of the views.
pub proof fn lemma_texts_concat(a: Seq<String>, b: Seq<String>)
    ensures
        texts(a + b) == texts(a) + texts(b),
{
    assert(texts(a + b) =~= texts(a) + texts(b));
}

/// Appends `s` to `v`.
pub(crate) fn push_text(v: &mut Vec<String>, s: String)
    ensures
        texts(final(v)@) == texts(old(v)@).push(s@),
        final(v)@ == old(v)@.push(s),
{
    proof {
        lemma_texts_push(v@, s);
    }
    v.push(s);
}

/// Appends an owned copy of `s` to `v`.
pub(crate) fn push_str(v: &mut Vec<String>, s: &str)
    ensures
        texts(final(v)@) == texts(old(v)@).push(s@),
{
    push_text(v, s.to_owned());
}

} // verus!

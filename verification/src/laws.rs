//! Laws that hold of the search strategies, stated and proved once and
//! for all inputs.

use vstd::prelude::*;

use crate::fold::lower_of;
use crate::insensitive_hit;
use crate::insensitive_matches;
use crate::lines::lines_of;
use crate::rx::corpus_fragments;
use crate::rx::line_fragments;
use crate::rx::present_fragments;
use crate::rx::regex_valid;
use crate::sensitive_hit;
use crate::sensitive_matches;

verus! {

/// The lowercase forms of a sequence of lines.
pub open spec fn lower_all(ls: Seq<Seq<char>>) -> Seq<Seq<char>> {
    ls.map_values(|l: Seq<char>| lower_of(l))
}

/// Case-insensitivity law: a case-insensitive search keeps exactly the
/// lines whose lowercase forms a case-sensitive search with the
/// lowercase pattern keeps among the lowercase lines; the insensitive
/// search merely returns the original-case text.  The law asks that
/// lowercasing a line keep its emptiness, which holds of every string
/// `str::to_lowercase` is given.
pub proof fn lemma_insensitive_is_sensitive_on_folded(pat: Seq<char>, ls: Seq<Seq<char>>)
    requires
        forall|k: int|
            0 <= k < ls.len() ==> (((#[trigger] ls[k]).len() == 0) <==> (lower_of(ls[k]).len()
                == 0)),
    ensures
        lower_all(insensitive_matches(pat, ls)) == sensitive_matches(lower_of(pat), lower_all(ls)),
    decreases ls.len(),
{
    reveal(Seq::filter);
    if ls.len() == 0 {
        assert(insensitive_matches(pat, ls) =~= Seq::<Seq<char>>::empty());
        assert(lower_all(ls) =~= Seq::<Seq<char>>::empty());
        assert(lower_all(insensitive_matches(pat, ls)) =~= Seq::<Seq<char>>::empty());
        assert(sensitive_matches(lower_of(pat), lower_all(ls)) =~= Seq::<Seq<char>>::empty());
    } else {
        let pre = ls.drop_last();
        let l = ls.last();
        assert forall|k: int| 0 <= k < pre.len() implies (((#[trigger] pre[k]).len() == 0) <==> (
        lower_of(pre[k]).len() == 0)) by {
            assert(pre[k] == ls[k]);
        }
        lemma_insensitive_is_sensitive_on_folded(pat, pre);
        assert(ls[ls.len() - 1] == l);
        assert(insensitive_hit(pat, l) == sensitive_hit(lower_of(pat), lower_of(l)));
        assert(lower_all(ls).drop_last() =~= lower_all(pre));
        assert(lower_all(ls).last() == lower_of(l));
        assert(lower_all(ls).len() == ls.len());
        if insensitive_hit(pat, l) {
            assert(insensitive_matches(pat, ls) == insensitive_matches(pat, pre).push(l));
            assert(lower_all(insensitive_matches(pat, ls)) =~= lower_all(
                insensitive_matches(pat, pre),
            ).push(lower_of(l)));
            assert(sensitive_matches(lower_of(pat), lower_all(ls)) == sensitive_matches(
                lower_of(pat),
                lower_all(pre),
            ).push(lower_of(l)));
        } else {
            assert(insensitive_matches(pat, ls) == insensitive_matches(pat, pre));
            assert(sensitive_matches(lower_of(pat), lower_all(ls)) == sensitive_matches(
                lower_of(pat),
                lower_all(pre),
            ));
        }
    }
}

/// The output of a regular-expression search, as a function of the
/// pattern and the corpus alone.
pub open spec fn regex_output(pat: Seq<char>, corpus: Seq<char>) -> Seq<Seq<char>> {
    corpus_fragments(pat, lines_of(corpus))
}

/// Regex idempotence: there is no hidden state.  Whether a search
/// succeeds and what it emits are functions of the pattern and the
/// corpus alone, so any two outcomes that `regex_search`'s contract
/// admits for the same inputs coincide.
pub proof fn lemma_regex_search_idempotent(
    pat: Seq<char>,
    corpus: Seq<char>,
    ok1: bool,
    v1: Seq<Seq<char>>,
    ok2: bool,
    v2: Seq<Seq<char>>,
)
    requires
        ok1 == regex_valid(pat),
        ok2 == regex_valid(pat),
        ok1 ==> v1 == regex_output(pat, corpus),
        ok2 ==> v2 == regex_output(pat, corpus),
    ensures
        ok1 == ok2,
        ok1 ==> v1 == v2,
{
}

/// Every fragment of a group sequence is non-empty.
proof fn lemma_present_fragments_nonempty(gs: Seq<Option<Seq<char>>>)
    ensures
        forall|k: int|
            0 <= k < present_fragments(gs).len() ==> (#[trigger] present_fragments(gs)[k]).len()
                > 0,
    decreases gs.len(),
{
    if gs.len() > 0 {
        let pre = gs.drop_last();
        lemma_present_fragments_nonempty(pre);
        let piece = match gs.last() {
            Some(t) => if t.len() > 0 {
                seq![t]
            } else {
                Seq::<Seq<char>>::empty()
            },
            None => Seq::<Seq<char>>::empty(),
        };
        assert(present_fragments(gs) == present_fragments(pre) + piece);
        assert forall|k: int| 0 <= k < present_fragments(gs).len() implies (
        #[trigger] present_fragments(gs)[k]).len() > 0 by {
            if k < present_fragments(pre).len() {
                assert(present_fragments(gs)[k] == present_fragments(pre)[k]);
            } else {
                assert(present_fragments(gs)[k] == piece[k - present_fragments(pre).len()]);
            }
        }
    }
}

/// Every fragment emitted for a sequence of lines is non-empty.
proof fn lemma_corpus_fragments_nonempty(pat: Seq<char>, ls: Seq<Seq<char>>)
    ensures
        forall|k: int|
            0 <= k < corpus_fragments(pat, ls).len() ==> (#[trigger] corpus_fragments(pat, ls)[k]).len()
                > 0,
    decreases ls.len(),
{
    if ls.len() > 0 {
        let pre = ls.drop_last();
        lemma_corpus_fragments_nonempty(pat, pre);
        lemma_present_fragments_nonempty(crate::rx::regex_groups(pat, ls.last()));
        let piece = line_fragments(pat, ls.last());
        assert(corpus_fragments(pat, ls) == corpus_fragments(pat, pre) + piece);
        assert forall|k: int| 0 <= k < corpus_fragments(pat, ls).len() implies (
        #[trigger] corpus_fragments(pat, ls)[k]).len() > 0 by {
            if k < corpus_fragments(pat, pre).len() {
                assert(corpus_fragments(pat, ls)[k] == corpus_fragments(pat, pre)[k]);
            } else {
                assert(corpus_fragments(pat, ls)[k] == piece[k - corpus_fragments(
                    pat,
                    pre,
                ).len()]);
            }
        }
    }
}

/// Empty-line exclusion: nothing empty is ever emitted.  A blank line
/// is kept by neither literal search — even when the pattern is empty
/// and so "contained" in it — and a regex search never emits an empty
/// fragment.
pub proof fn lemma_blank_never_emitted(pat: Seq<char>, ls: Seq<Seq<char>>)
    ensures
        forall|k: int|
            0 <= k < sensitive_matches(pat, ls).len() ==> (#[trigger] sensitive_matches(
                pat,
                ls,
            )[k]).len() > 0,
        forall|k: int|
            0 <= k < insensitive_matches(pat, ls).len() ==> (#[trigger] insensitive_matches(
                pat,
                ls,
            )[k]).len() > 0,
        forall|k: int|
            0 <= k < corpus_fragments(pat, ls).len() ==> (#[trigger] corpus_fragments(pat, ls)[k]).len()
                > 0,
{
    broadcast use vstd::seq_lib::group_filter_ensures;

    lemma_corpus_fragments_nonempty(pat, ls);
}

} // verus!

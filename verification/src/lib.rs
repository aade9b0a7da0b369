//! A line-oriented text search library: literal case-sensitive search,
//! literal case-insensitive search, and regular-expression sub-match
//! extraction over an in-memory corpus.

pub mod config;
pub mod fold;
pub mod laws;
pub mod lines;
pub mod rx;

use vstd::prelude::*;

use crate::fold::lower_of;
use crate::fold::lowercase;
use crate::lines::chars_of;
use crate::lines::contains_chars;
use crate::lines::has_substring;
use crate::lines::lines_of;
use crate::lines::split_lines;
use crate::rx::capture_groups;
use crate::rx::compile;
use crate::rx::corpus_fragments;
use crate::rx::error_message;
use crate::rx::present_fragments;
use crate::rx::regex_groups;
use crate::rx::regex_valid;
use crate::rx::PatternError;

verus! {

/// A case-sensitive search keeps a line when it is non-empty and
/// contains the pattern as a contiguous substring.
pub open spec fn sensitive_hit(pat: Seq<char>, line: Seq<char>) -> bool {
    line.len() > 0 && has_substring(line, pat)
}

/// The lines a case-sensitive search keeps, in corpus order.
pub open spec fn sensitive_matches(pat: Seq<char>, ls: Seq<Seq<char>>) -> Seq<Seq<char>> {
    ls.filter(|l: Seq<char>| sensitive_hit(pat, l))
}

/// A case-insensitive search keeps a line when it is non-empty and its
/// lowercase form contains the lowercase form of the pattern.
pub open spec fn insensitive_hit(pat: Seq<char>, line: Seq<char>) -> bool {
    line.len() > 0 && has_substring(lower_of(line), lower_of(pat))
}

/// The lines a case-insensitive search keeps, in corpus order; the
/// lines keep their original case.
pub open spec fn insensitive_matches(pat: Seq<char>, ls: Seq<Seq<char>>) -> Seq<Seq<char>> {
    ls.filter(|l: Seq<char>| insensitive_hit(pat, l))
}

/// Exactly the non-empty lines of `contents` that contain `query` as a
/// contiguous substring, in corpus order.
pub fn search(query: &str, contents: &str) -> (r: Vec<String>)
    ensures
        r.deep_view() == sensitive_matches(query@, lines_of(contents@)),
{
    let pat = chars_of(query);
    let ls = split_lines(contents);
    let mut r: Vec<String> = Vec::new();
    let mut i: usize = 0;
    proof {
        assert(r.deep_view() =~= Seq::<Seq<char>>::empty());
        assert(ls.deep_view().subrange(0, 0) =~= Seq::<Seq<char>>::empty());
        reveal(Seq::filter);
    }
    while i < ls.len()
        invariant
            pat@ == query@,
            ls.deep_view() == lines_of(contents@),
            i <= ls.len(),
            ls.deep_view().len() == ls.len(),
            r.deep_view() == sensitive_matches(query@, ls.deep_view().subrange(0, i as int)),
        decreases ls.len() - i,
    {
        let ghost prev = r.deep_view();
        let ghost pre = ls.deep_view().subrange(0, i as int);
        let ghost pre1 = ls.deep_view().subrange(0, i + 1 as int);
        let line = &ls[i];
        let lc = chars_of(line.as_str());
        if lc.len() > 0 && contains_chars(&lc, &pat) {
            r.push(line.clone());
        }
        proof {
            reveal(Seq::filter);
            assert(pre1.drop_last() =~= pre);
            assert(pre1.last() == ls.deep_view()[i as int]);
            assert(ls.deep_view()[i as int] == line@);
            if sensitive_hit(query@, line@) {
                assert(r.deep_view() =~= prev.push(line@));
            }
            assert(r.deep_view() =~= sensitive_matches(query@, pre1));
        }
        i = i + 1;
    }
    proof {
        assert(ls.deep_view().subrange(0, ls.deep_view().len() as int) =~= ls.deep_view());
    }
    r
}

/// Exactly the non-empty lines of `contents` whose lowercase form
/// contains the lowercase form of `query`, in corpus order; the lines
/// are returned in their original case.
pub fn search_case_insensitive(query: &str, contents: &str) -> (r: Vec<String>)
    ensures
        r.deep_view() == insensitive_matches(query@, lines_of(contents@)),
{
    let folded_query = lowercase(query);
    let pat = chars_of(folded_query.as_str());
    let ls = split_lines(contents);
    let mut r: Vec<String> = Vec::new();
    let mut i: usize = 0;
    proof {
        assert(r.deep_view() =~= Seq::<Seq<char>>::empty());
        assert(ls.deep_view().subrange(0, 0) =~= Seq::<Seq<char>>::empty());
        reveal(Seq::filter);
    }
    while i < ls.len()
        invariant
            pat@ == lower_of(query@),
            ls.deep_view() == lines_of(contents@),
            i <= ls.len(),
            ls.deep_view().len() == ls.len(),
            r.deep_view() == insensitive_matches(query@, ls.deep_view().subrange(0, i as int)),
        decreases ls.len() - i,
    {
        let ghost prev = r.deep_view();
        let ghost pre = ls.deep_view().subrange(0, i as int);
        let ghost pre1 = ls.deep_view().subrange(0, i + 1 as int);
        let line = &ls[i];
        let folded_line = lowercase(line.as_str());
        let lc = chars_of(folded_line.as_str());
        if !line.as_str().is_empty() && contains_chars(&lc, &pat) {
            r.push(line.clone());
        }
        proof {
            reveal(Seq::filter);
            assert(pre1.drop_last() =~= pre);
            assert(pre1.last() == ls.deep_view()[i as int]);
            assert(ls.deep_view()[i as int] == line@);
            if insensitive_hit(query@, line@) {
                assert(r.deep_view() =~= prev.push(line@));
            }
            assert(r.deep_view() =~= insensitive_matches(query@, pre1));
        }
        i = i + 1;
    }
    proof {
        assert(ls.deep_view().subrange(0, ls.deep_view().len() as int) =~= ls.deep_view());
    }
    r
}

/// Every non-empty whole-match and capture-group text that `pattern`
/// yields on the lines of `contents`, in discovery order: top to bottom
/// through the corpus, left to right within a line, and for each match
/// the whole match before its groups.  `Err` exactly when the pattern
/// does not compile.
pub fn regex_search(pattern: &str, contents: &str) -> (r: Result<Vec<String>, PatternError>)
    ensures
        r is Ok <==> regex_valid(pattern@),
        r matches Ok(v) ==> v.deep_view() == corpus_fragments(pattern@, lines_of(contents@)),
{
    let m = match compile(pattern) {
        Ok(m) => m,
        Err(e) => {
            return Err(PatternError { message: error_message(&e) });
        },
    };
    let ls = split_lines(contents);
    let mut out: Vec<String> = Vec::new();
    let mut i: usize = 0;
    proof {
        assert(out.deep_view() =~= Seq::<Seq<char>>::empty());
        assert(ls.deep_view().subrange(0, 0) =~= Seq::<Seq<char>>::empty());
    }
    while i < ls.len()
        invariant
            m.pattern() == pattern@,
            ls.deep_view() == lines_of(contents@),
            i <= ls.len(),
            ls.deep_view().len() == ls.len(),
            out.deep_view() == corpus_fragments(pattern@, ls.deep_view().subrange(0, i as int)),
        decreases ls.len() - i,
    {
        let ghost pre = ls.deep_view().subrange(0, i as int);
        let ghost pre1 = ls.deep_view().subrange(0, i + 1 as int);
        let line = &ls[i];
        let gs = capture_groups(&m, line.as_str());
        let mut j: usize = 0;
        proof {
            assert(gs.deep_view().subrange(0, 0) =~= Seq::<Option<Seq<char>>>::empty());
        }
        while j < gs.len()
            invariant
                gs.deep_view() == regex_groups(pattern@, line@),
                j <= gs.len(),
                gs.deep_view().len() == gs.len(),
                out.deep_view() == corpus_fragments(pattern@, pre) + present_fragments(
                    gs.deep_view().subrange(0, j as int),
                ),
            decreases gs.len() - j,
        {
            let ghost prev = out.deep_view();
            let ghost gpre = gs.deep_view().subrange(0, j as int);
            let ghost gpre1 = gs.deep_view().subrange(0, j + 1 as int);
            match &gs[j] {
                Some(s) => {
                    if !s.as_str().is_empty() {
                        out.push(s.clone());
                        proof {
                            assert(out.deep_view() =~= prev.push(s@));
                            assert(prev.push(s@) =~= prev + seq![s@]);
                        }
                    }
                },
                None => {},
            }
            proof {
                assert(gpre1.drop_last() =~= gpre);
                assert(gpre1.last() == gs.deep_view()[j as int]);
                assert(gs.deep_view()[j as int] == gs[j as int].deep_view());
                assert(out.deep_view() =~= corpus_fragments(pattern@, pre) + present_fragments(
                    gpre1,
                ));
            }
            j = j + 1;
        }
        proof {
            assert(gs.deep_view().subrange(0, gs.deep_view().len() as int) =~= gs.deep_view());
            assert(pre1.drop_last() =~= pre);
            assert(pre1.last() == ls.deep_view()[i as int]);
            assert(ls.deep_view()[i as int] == line@);
            assert(out.deep_view() =~= corpus_fragments(pattern@, pre1));
        }
        i = i + 1;
    }
    proof {
        assert(ls.deep_view().subrange(0, ls.deep_view().len() as int) =~= ls.deep_view());
    }
    Ok(out)
}

/// Runs the search strategy the flags select: regex mode takes
/// precedence over the case flag, and only an invalid regex pattern
/// can fail.
pub fn run_search(pattern: &str, contents: &str, use_regex: bool, case_sensitive: bool) -> (r:
    Result<Vec<String>, PatternError>)
    ensures
        use_regex ==> (r is Ok <==> regex_valid(pattern@)),
        use_regex ==> (r matches Ok(v) ==> v.deep_view() == corpus_fragments(
            pattern@,
            lines_of(contents@),
        )),
        !use_regex && case_sensitive ==> (r matches Ok(v) && v.deep_view() == sensitive_matches(
            pattern@,
            lines_of(contents@),
        )),
        !use_regex && !case_sensitive ==> (r matches Ok(v) && v.deep_view() == insensitive_matches(
            pattern@,
            lines_of(contents@),
        )),
{
    if use_regex {
        regex_search(pattern, contents)
    } else if case_sensitive {
        Ok(search(pattern, contents))
    } else {
        Ok(search_case_insensitive(pattern, contents))
    }
}

} // verus!

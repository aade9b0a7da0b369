//! Regular-expression sub-match extraction, built on the `regex` crate.
//!
//! The engine itself is trusted: what a pattern accepts is named by
//! uninterpreted spec functions, and everything downstream of the engine
//! — the per-line scan, the suppression of absent and empty groups, the
//! order of the emitted fragments — is verified.

use vstd::prelude::*;

verus! {

#[verifier::external_type_specification]
#[verifier::external_body]
pub struct ExRegex(regex::Regex);

#[verifier::external_type_specification]
#[verifier::external_body]
pub struct ExRegexError(regex::Error);

/// Whether `regex::Regex::new` accepts `pat`: the pattern is
/// syntactically valid and within the engine's default size limit.
pub uninterp spec fn regex_valid(pat: Seq<char>) -> bool;

/// The group texts that `regex::Regex::captures_iter` yields on `line`
/// for a regex compiled from `pat`: for each non-overlapping match in
/// left-to-right order, the whole match first and then every capturing
/// group in order — `None` where a group did not participate.
pub uninterp spec fn regex_groups(pat: Seq<char>, line: Seq<char>) -> Seq<Option<Seq<char>>>;

/// The error returned when a pattern does not compile.
#[derive(Debug)]
pub struct PatternError {
    pub message: String,
}

/// A pattern compiled once, kept with the text it was compiled from.
pub struct Matcher {
    re: regex::Regex,
    pat: String,
}

impl Matcher {
    /// The pattern this matcher was compiled from.
    pub closed spec fn pattern(&self) -> Seq<char> {
        self.pat@
    }
}

/// Relies on regex::Regex::new: compilation succeeds exactly on the
/// valid patterns, and depends on the pattern text alone.
#[verifier::external_body]
pub(crate) fn compile(pat: &str) -> (r: Result<Matcher, regex::Error>)
    ensures
        r is Ok <==> regex_valid(pat@),
        r matches Ok(m) ==> m.pattern() == pat@,
{
    match regex::Regex::new(pat) {
        Ok(re) => Ok(Matcher { re, pat: pat.to_string() }),
        Err(e) => Err(e),
    }
}

/// Relies on regex::Regex::captures_iter and regex::Captures::iter: for
/// each match, the whole match comes first and then each group, and the
/// result depends on the pattern and the haystack alone.
#[verifier::external_body]
pub(crate) fn capture_groups(m: &Matcher, line: &str) -> (r: Vec<Option<String>>)
    ensures
        r.deep_view() == regex_groups(m.pattern(), line@),
{
    let mut out: Vec<Option<String>> = Vec::new();
    for caps in m.re.captures_iter(line) {
        for g in caps.iter() {
            out.push(g.map(|mm| mm.as_str().to_string()));
        }
    }
    out
}

/// Relies on the Display implementation of regex::Error for the
/// diagnostic text shown to the user.
#[verifier::external_body]
pub(crate) fn error_message(e: &regex::Error) -> String {
    format!("{}", e)
}

/// The texts of the present, non-empty entries of a group sequence, in
/// order.
pub open spec fn present_fragments(gs: Seq<Option<Seq<char>>>) -> Seq<Seq<char>>
    decreases gs.len(),
{
    if gs.len() == 0 {
        Seq::empty()
    } else {
        present_fragments(gs.drop_last()) + match gs.last() {
            Some(t) => if t.len() > 0 {
                seq![t]
            } else {
                Seq::empty()
            },
            None => Seq::empty(),
        }
    }
}

/// The fragments a regex search emits for one line.
pub open spec fn line_fragments(pat: Seq<char>, line: Seq<char>) -> Seq<Seq<char>> {
    present_fragments(regex_groups(pat, line))
}

/// The fragments a regex search emits for a sequence of lines, in
/// discovery order.
pub open spec fn corpus_fragments(pat: Seq<char>, ls: Seq<Seq<char>>) -> Seq<Seq<char>>
    decreases ls.len(),
{
    if ls.len() == 0 {
        Seq::empty()
    } else {
        corpus_fragments(pat, ls.drop_last()) + line_fragments(pat, ls.last())
    }
}

} // verus!

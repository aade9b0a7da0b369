//! Splitting a corpus into lines, and substring containment: the
//! specification-level notions and the executable routines that
//! implement them.

use vstd::prelude::*;
use vstd::string::*;

verus! {

/// Index of the first newline character in `s`, or `s.len()` if there
/// is none.
pub open spec fn find_nl(s: Seq<char>) -> nat
    decreases s.len(),
{
    if s.len() == 0 {
        0
    } else if s[0] == '\n' {
        0
    } else {
        1 + find_nl(s.subrange(1, s.len() as int))
    }
}

pub proof fn lemma_find_nl(s: Seq<char>)
    ensures
        find_nl(s) <= s.len(),
        forall|j: int| 0 <= j < find_nl(s) ==> s[j] != '\n',
        find_nl(s) < s.len() ==> s[find_nl(s) as int] == '\n',
    decreases s.len(),
{
    if s.len() == 0 {
    } else if s[0] == '\n' {
    } else {
        let t = s.subrange(1, s.len() as int);
        lemma_find_nl(t);
        assert forall|j: int| 0 <= j < find_nl(s) implies s[j] != '\n' by {
            if j > 0 {
                assert(s[j] == t[j - 1]);
            }
        }
        if find_nl(s) < s.len() {
            assert(s[find_nl(s) as int] == t[find_nl(t) as int]);
        }
    }
}

/// `find_nl` is pinned down by its characteristic properties.
pub proof fn lemma_find_nl_unique(s: Seq<char>, k: int)
    requires
        0 <= k <= s.len(),
        forall|j: int| 0 <= j < k ==> s[j] != '\n',
        k < s.len() ==> s[k] == '\n',
    ensures
        find_nl(s) == k,
{
    lemma_find_nl(s);
    if find_nl(s) < k {
        assert(s[find_nl(s) as int] != '\n');
    }
    if find_nl(s) > k {
        assert(s[k] != '\n');
    }
}

/// The lines of `s`, split at newline characters.  A trailing newline
/// does not open a final empty line, and an empty corpus has no lines.
pub open spec fn lines_of(s: Seq<char>) -> Seq<Seq<char>>
    decreases s.len(),
{
    if s.len() == 0 {
        Seq::empty()
    } else {
        let k = find_nl(s);
        if k >= s.len() {
            seq![s]
        } else {
            seq![s.subrange(0, k as int)] + lines_of(s.subrange(k as int + 1, s.len() as int))
        }
    }
}

/// Peeling the first line off a corpus whose first newline stands at `k`.
pub proof fn lemma_lines_of_step(s: Seq<char>, k: int)
    requires
        0 <= k < s.len(),
        s[k] == '\n',
        forall|j: int| 0 <= j < k ==> s[j] != '\n',
    ensures
        lines_of(s) == seq![s.subrange(0, k)] + lines_of(s.subrange(k + 1, s.len() as int)),
{
    lemma_find_nl_unique(s, k);
}

/// A newline-free corpus is one line, or none when it is empty.
pub proof fn lemma_lines_of_flat(s: Seq<char>)
    requires
        forall|j: int| 0 <= j < s.len() ==> s[j] != '\n',
    ensures
        lines_of(s) == if s.len() == 0 { Seq::<Seq<char>>::empty() } else { seq![s] },
{
    if s.len() > 0 {
        lemma_find_nl_unique(s, s.len() as int);
    }
}

/// `pat` occurs in `text` starting at position `i`.
pub open spec fn substring_at(text: Seq<char>, pat: Seq<char>, i: int) -> bool {
    0 <= i && i + pat.len() <= text.len() && text.subrange(i, i + pat.len() as int) == pat
}

/// `pat` occurs somewhere in `text` as a contiguous substring.
pub open spec fn has_substring(text: Seq<char>, pat: Seq<char>) -> bool {
    exists|i: int| substring_at(text, pat, i)
}

/// All characters of `s`, in order.
pub fn chars_of(s: &str) -> (r: Vec<char>)
    ensures
        r@ == s@,
{
    let n: usize = s.unicode_len();
    let mut r: Vec<char> = Vec::new();
    let mut i: usize = 0;
    while i < n
        invariant
            n == s@.len(),
            i <= n,
            r@ == s@.subrange(0, i as int),
        decreases n - i,
    {
        let c = s.get_char(i);
        r.push(c);
        assert(r@ =~= s@.subrange(0, i + 1 as int));
        i = i + 1;
    }
    assert(r@ =~= s@);
    r
}

/// Character-for-character equality of two string slices.
pub fn str_eq(a: &str, b: &str) -> (r: bool)
    ensures
        r == (a@ == b@),
{
    let na: usize = a.unicode_len();
    let nb: usize = b.unicode_len();
    if na != nb {
        return false;
    }
    let mut i: usize = 0;
    while i < na
        invariant
            na == a@.len(),
            na == b@.len(),
            i <= na,
            forall|j: int| 0 <= j < i ==> a@[j] == b@[j],
        decreases na - i,
    {
        if a.get_char(i) != b.get_char(i) {
            return false;
        }
        i = i + 1;
    }
    assert(a@ =~= b@);
    true
}

/// `pat` stands in `text` at position `i`.
fn matches_at(text: &Vec<char>, pat: &Vec<char>, i: usize) -> (r: bool)
    requires
        i + pat@.len() <= text@.len(),
    ensures
        r == substring_at(text@, pat@, i as int),
{
    let tn: usize = text.len();
    let pn: usize = pat.len();
    let mut j: usize = 0;
    while j < pn
        invariant
            tn == text@.len(),
            pn == pat@.len(),
            i + pn <= tn,
            j <= pn,
            forall|k: int| 0 <= k < j ==> text@[i + k] == pat@[k],
        decreases pn - j,
    {
        if text[i + j] != pat[j] {
            assert(!substring_at(text@, pat@, i as int)) by {
                if substring_at(text@, pat@, i as int) {
                    assert(text@.subrange(i as int, i + pat@.len() as int)[j as int] == text@[i + j]);
                }
            }
            return false;
        }
        j = j + 1;
    }
    assert(text@.subrange(i as int, i + pat@.len() as int) =~= pat@);
    true
}

/// Whether `pat` occurs contiguously anywhere in `text`.
pub fn contains_chars(text: &Vec<char>, pat: &Vec<char>) -> (r: bool)
    ensures
        r == has_substring(text@, pat@),
{
    let tn: usize = text.len();
    let pn: usize = pat.len();
    if pn > tn {
        return false;
    }
    if pn == 0 {
        assert(substring_at(text@, pat@, 0)) by {
            assert(text@.subrange(0, 0) =~= pat@);
        }
        return true;
    }
    let lim: usize = tn - pn;
    let mut i: usize = 0;
    while i <= lim
        invariant
            0 < pn <= tn,
            tn == text@.len(),
            pn == pat@.len(),
            lim == tn - pn,
            i <= lim + 1,
            forall|k: int| 0 <= k < i ==> !substring_at(text@, pat@, k),
        decreases lim + 1 - i,
    {
        if matches_at(text, pat, i) {
            return true;
        }
        i = i + 1;
    }
    false
}

/// The lines of `contents`, in corpus order.
pub fn split_lines(contents: &str) -> (r: Vec<String>)
    ensures
        r.deep_view() == lines_of(contents@),
{
    let n: usize = contents.unicode_len();
    let mut r: Vec<String> = Vec::new();
    let mut start: usize = 0;
    let mut i: usize = 0;
    proof {
        assert(r.deep_view() =~= Seq::<Seq<char>>::empty());
        assert(contents@.subrange(0, n as int) =~= contents@);
        assert(Seq::<Seq<char>>::empty() + lines_of(contents@) =~= lines_of(contents@));
    }
    while i < n
        invariant
            n == contents@.len(),
            start <= i <= n,
            forall|j: int| start <= j < i ==> contents@[j] != '\n',
            lines_of(contents@) == r.deep_view() + lines_of(
                contents@.subrange(start as int, n as int),
            ),
        decreases n - i,
    {
        let c = contents.get_char(i);
        if c == '\n' {
            let ghost prev = r.deep_view();
            let line = contents.substring_char(start, i);
            r.push(line.to_owned());
            proof {
                let whole = contents@;
                let suf = whole.subrange(start as int, n as int);
                assert forall|j: int| 0 <= j < i - start implies suf[j] != '\n' by {
                    assert(suf[j] == whole[start + j]);
                }
                assert(suf[i - start] == whole[i as int]);
                lemma_lines_of_step(suf, i - start);
                assert(suf.subrange(0, i - start) =~= whole.subrange(start as int, i as int));
                assert(suf.subrange(i - start + 1, suf.len() as int) =~= whole.subrange(
                    i + 1 as int,
                    n as int,
                ));
                assert(r.deep_view() =~= prev.push(line@));
                assert(prev.push(line@) =~= prev + seq![line@]);
                assert((prev + seq![line@]) + lines_of(whole.subrange(i + 1 as int, n as int))
                    =~= prev + (seq![line@] + lines_of(whole.subrange(i + 1 as int, n as int))));
            }
            start = i + 1;
        }
        i = i + 1;
    }
    if start < n {
        let ghost prev = r.deep_view();
        let line = contents.substring_char(start, n);
        r.push(line.to_owned());
        proof {
            let whole = contents@;
            let suf = whole.subrange(start as int, n as int);
            assert forall|j: int| 0 <= j < suf.len() implies suf[j] != '\n' by {
                assert(suf[j] == whole[start + j]);
            }
            lemma_lines_of_flat(suf);
            assert(r.deep_view() =~= prev.push(line@));
            assert(prev.push(line@) =~= prev + seq![line@]);
        }
    } else {
        proof {
            assert(contents@.subrange(start as int, n as int).len() == 0);
        }
    }
    assert(r.deep_view() =~= lines_of(contents@));
    r
}

} // verus!

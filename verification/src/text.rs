//! Text helpers: specifications of the string operations the gateway relies
//! on, and the std calls that perform them.
use vstd::prelude::*;

verus! {

/// The one-character separator used when text blocks are joined.
pub open spec fn newline() -> Seq<char> {
    seq!['\n']
}

/// The elements of `s`, separated by newlines.
pub open spec fn join_lines(s: Seq<Seq<char>>) -> Seq<char>
    decreases s.len(),
{
    if s.len() == 0 {
        seq![]
    } else if s.len() == 1 {
        s[0]
    } else {
        join_lines(s.drop_last()) + newline() + s.last()
    }
}

/// `s` without its leading `p`, when `s` starts with `p`.
pub open spec fn strip_prefix_spec(s: Seq<char>, p: Seq<char>) -> Option<Seq<char>> {
    if p.is_prefix_of(s) {
        Some(s.skip(p.len() as int))
    } else {
        None
    }
}

/// `s` without its trailing `p`, when `s` ends with `p`.
pub open spec fn strip_suffix_spec(s: Seq<char>, p: Seq<char>) -> Option<Seq<char>> {
    if p.is_suffix_of(s) {
        Some(s.take(s.len() - p.len()))
    } else {
        None
    }
}

/// The text before and after the first occurrence of `c` in `s`, if any.
pub open spec fn split_once_spec(s: Seq<char>, c: char) -> Option<(Seq<char>, Seq<char>)>
    decreases s.len(),
{
    if s.len() == 0 {
        None
    } else if s[0] == c {
        Some((seq![], s.drop_first()))
    } else {
        match split_once_spec(s.drop_first(), c) {
            Some((a, b)) => Some((seq![s[0]] + a, b)),
            None => None,
        }
    }
}

/// Calls `str::split_once` with a character pattern, which splits at the
/// first occurrence of `c`; the contract states that split exactly.
#[verifier::external_body]
pub fn split_once_char<'a>(s: &'a str, c: char) -> (r: Option<(&'a str, &'a str)>)
    ensures
        match r {
            Some((a, b)) => split_once_spec(s@, c) == Some((a@, b@)),
            None => split_once_spec(s@, c) is None,
        },
{
    s.split_once(c)
}

/// Calls `str::strip_prefix`: the rest of `s` after `p` when `s` starts with `p`.
#[verifier::external_body]
pub fn strip_prefix_str<'a>(s: &'a str, p: &str) -> (r: Option<&'a str>)
    ensures
        match r {
            Some(rest) => strip_prefix_spec(s@, p@) == Some(rest@),
            None => strip_prefix_spec(s@, p@) is None,
        },
{
    s.strip_prefix(p)
}

/// Calls `str::strip_suffix`: `s` before `p` when `s` ends with `p`.
#[verifier::external_body]
pub fn strip_suffix_str<'a>(s: &'a str, p: &str) -> (r: Option<&'a str>)
    ensures
        match r {
            Some(rest) => strip_suffix_spec(s@, p@) == Some(rest@),
            None => strip_suffix_spec(s@, p@) is None,
        },
{
    s.strip_suffix(p)
}

/// Calls `str::starts_with` with a string pattern.
#[verifier::external_body]
pub fn starts_with_str(s: &str, p: &str) -> (r: bool)
    ensures
        r == p@.is_prefix_of(s@),
{
    s.starts_with(p)
}

/// Joins the texts with newline separators.
pub fn join_with_newlines(parts: Vec<String>) -> (r: String)
    ensures
        r@ == join_lines(parts.deep_view()),
{
    let ghost pv = parts.deep_view();
    let mut out = String::new();
    let mut first = true;
    for p in it: parts.into_iter()
        invariant
            pv.len() == it.seq().len(),
            forall|j: int| 0 <= j < pv.len() ==> pv[j] == it.seq()[j]@,
            first == (it.index() == 0),
            out@ == join_lines(pv.take(it.index() as int)),
    {
        proof {
            reveal_strlit("\n");
            let t = pv.take(it.index() + 1);
            assert(t.drop_last() == pv.take(it.index() as int));
        }
        if first {
            out = p;
            first = false;
        } else {
            out.append("\n");
            out.append(p.as_str());
        }
    }
    proof { assert(pv.take(pv.len() as int) == pv); }
    out
}

} // verus!

verus! {

/// Calls `<str as PartialEq>::eq`: string equality by characters.
#[verifier::external_body]
pub fn str_eq(a: &str, b: &str) -> (r: bool)
    ensures
        r == (a@ == b@),
{
    a == b
}

} // verus!

verus! {

/// `s` splits at `c` exactly when it contains `c`.
pub proof fn lemma_split_once_found(s: Seq<char>, c: char)
    ensures
        split_once_spec(s, c) is Some <==> s.contains(c),
    decreases s.len(),
{
    if s.len() > 0 {
        lemma_split_once_found(s.drop_first(), c);
        if s.drop_first().contains(c) {
            let j = choose|j: int| 0 <= j < s.drop_first().len() && s.drop_first()[j] == c;
            assert(s[j + 1] == c);
        }
        if s.contains(c) && s[0] != c {
            let j = choose|j: int| 0 <= j < s.len() && s[j] == c;
            assert(s.drop_first()[j - 1] == c);
        }
    }
}

} // verus!

//! Small facts about text: the characters of a string, and what a link
//! looks like.

use vstd::prelude::*;

verus! {

/// `http://`
pub open spec fn http_scheme() -> Seq<char> {
    seq!['h', 't', 't', 'p', ':', '/', '/']
}

/// `https://`
pub open spec fn https_scheme() -> Seq<char> {
    seq!['h', 't', 't', 'p', 's', ':', '/', '/']
}

/// A link is text that starts with `http://` or `https://`.
pub open spec fn is_link(s: Seq<char>) -> bool {
    http_scheme().is_prefix_of(s) || https_scheme().is_prefix_of(s)
}

/// The characters of `s`, in order.
pub fn chars_of(s: &str) -> (v: Vec<char>)
    ensures
        v@ == s@,
{
    let n = s.unicode_len();
    let mut v: Vec<char> = Vec::new();
    let mut i: usize = 0;
    while i < n
        invariant
            n == s@.len(),
            i <= n,
            v@ == s@.take(i as int),
        decreases n - i,
    {
        v.push(s.get_char(i));
        i = i + 1;
    }
    v
}

/// Whether the first characters of `s` (which has `len` characters) are `p`.
fn starts_with(s: &str, len: usize, p: &[char]) -> (b: bool)
    requires
        len == s@.len(),
    ensures
        b == p@.is_prefix_of(s@),
{
    if p.len() > len {
        return false;
    }
    let mut i: usize = 0;
    while i < p.len()
        invariant
            p@.len() <= len == s@.len(),
            i <= p@.len(),
            forall|j: int| 0 <= j < i ==> s@[j] == p@[j],
        decreases p@.len() - i,
    {
        if s.get_char(i) != p[i] {
            return false;
        }
        i = i + 1;
    }
    assert(p@ =~= s@.subrange(0, p@.len() as int));
    true
}

/// The first `n` characters of `s` are `p`.
pub open spec fn begins_with(s: Seq<char>, n: int, p: Seq<char>) -> bool {
    s.len() >= n && s.take(n) == p
}

/// Whatever follows `http://` or `https://`, the text is a link; and a link
/// is text whose first seven characters are `http://` or whose first eight
/// are `https://`, nothing more and nothing less.
pub proof fn lemma_link_is_scheme_prefix(s: Seq<char>, rest: Seq<char>)
    ensures
        is_link(seq!['h', 't', 't', 'p', ':', '/', '/'] + rest),
        is_link(seq!['h', 't', 't', 'p', 's', ':', '/', '/'] + rest),
        is_link(s) <==> (begins_with(s, 7, seq!['h', 't', 't', 'p', ':', '/', '/']) || begins_with(
            s,
            8,
            seq!['h', 't', 't', 'p', 's', ':', '/', '/'],
        )),
{
    let a = seq!['h', 't', 't', 'p', ':', '/', '/'] + rest;
    let b = seq!['h', 't', 't', 'p', 's', ':', '/', '/'] + rest;
    assert(a.subrange(0, 7) =~= http_scheme());
    assert(b.subrange(0, 8) =~= https_scheme());
    if s.len() >= 7 {
        assert(s.take(7) =~= s.subrange(0, 7));
    }
    if s.len() >= 8 {
        assert(s.take(8) =~= s.subrange(0, 8));
    }
}

/// Whether `s` is a link: it starts with `http://` or `https://`, whatever
/// follows and however long it is.
pub fn check_link(s: &str) -> (b: bool)
    ensures
        b == is_link(s@),
        b <==> (begins_with(s@, 7, seq!['h', 't', 't', 'p', ':', '/', '/']) || begins_with(
            s@,
            8,
            seq!['h', 't', 't', 'p', 's', ':', '/', '/'],
        )),
{
    proof {
        lemma_link_is_scheme_prefix(s@, Seq::empty());
    }
    let len = s.unicode_len();
    let http: [char; 7] = ['h', 't', 't', 'p', ':', '/', '/'];
    let https: [char; 8] = ['h', 't', 't', 'p', 's', ':', '/', '/'];
    assert(http@ =~= http_scheme());
    assert(https@ =~= https_scheme());
    starts_with(s, len, &http) || starts_with(s, len, &https)
}

} // verus!

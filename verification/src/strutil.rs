//! Small verified helpers over strings: prefix tests and stripping of the
//! `"Bearer "` scheme prefix from an authorization header value.
use vstd::prelude::*;

verus! {

/// `p` is a prefix of `s`.
pub open spec fn starts_with(s: Seq<char>, p: Seq<char>) -> bool {
    p.len() <= s.len() && s.subrange(0, p.len() as int) == p
}

/// The header value with every leading repetition of `prefix` removed,
/// as `str::trim_start_matches` does.
pub open spec fn strip_prefix_rec(s: Seq<char>, p: Seq<char>) -> Seq<char>
    decreases s.len(),
{
    if p.len() > 0 && starts_with(s, p) {
        strip_prefix_rec(s.subrange(p.len() as int, s.len() as int), p)
    } else {
        s
    }
}

/// A string without any of the characters of `p` is left alone by the strip.
pub proof fn lemma_strip_prefix_absent(s: Seq<char>, p: Seq<char>, c: char)
    requires
        p.len() > 0,
        p.contains(c),
        forall|i: int| 0 <= i < s.len() ==> s[i] != c,
    ensures
        strip_prefix_rec(s, p) == s,
{
    if starts_with(s, p) {
        let j = choose|j: int| 0 <= j < p.len() && p[j] == c;
        assert(s.subrange(0, p.len() as int)[j] == s[j]);
    }
}

pub fn str_starts_with(s: &str, p: &str) -> (r: bool)
    ensures
        r == starts_with(s@, p@),
{
    let sn: usize = s.unicode_len();
    let pn: usize = p.unicode_len();
    if pn > sn {
        assert(!starts_with(s@, p@));
        return false;
    }
    let mut i: usize = 0;
    while i < pn
        invariant
            0 <= i <= pn <= sn,
            sn == s@.len(),
            pn == p@.len(),
            forall|j: int| 0 <= j < i ==> s@[j] == p@[j],
        decreases pn - i,
    {
        if s.get_char(i) != p.get_char(i) {
            assert(!starts_with(s@, p@)) by {
                if starts_with(s@, p@) {
                    assert(s@.subrange(0, pn as int)[i as int] == s@[i as int]);
                }
            }
            return false;
        }
        i += 1;
    }
    assert(s@.subrange(0, pn as int) =~= p@);
    true
}

/// String-slice equality, decided through the owned strings.
pub fn str_eq(a: &str, b: &str) -> (r: bool)
    ensures
        r == (a@ == b@),
{
    let x: String = a.to_owned();
    let y: String = b.to_owned();
    x == y
}

/// Removes every leading `"Bearer "` from an authorization header value,
/// mirroring `str::trim_start_matches`.
pub fn strip_bearer(s: &str) -> (r: String)
    ensures
        r@ == strip_prefix_rec(s@, "Bearer "@),
{
    let mut rest: String = s.to_owned();
    proof {
        reveal_strlit("Bearer ");
    }
    while str_starts_with(rest.as_str(), "Bearer ")
        invariant
            strip_prefix_rec(rest@, "Bearer "@) == strip_prefix_rec(s@, "Bearer "@),
            "Bearer "@.len() == 7,
        decreases rest@.len(),
    {
        let next = rest.as_str().substring_char(7, rest.as_str().unicode_len());
        rest = next.to_owned();
    }
    rest
}

} // verus!

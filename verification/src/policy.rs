//! Validation policy: a pure predicate deciding whether clipboard text should
//! be treated as a playable URL.
//!
//! Two policies are offered. The heuristic policy accepts text containing any
//! of a fixed set of URL markers (scheme prefixes, `www.`, common top-level
//! domains); it is cheap but admits false positives. The strict policy accepts
//! exactly the strings that parse as absolute URLs under the standard URL
//! grammar; it rejects scheme-less text. The choice is made once, when the
//! watcher is built, and each predicate is stateless.

use vstd::prelude::*;

verus! {

/// The pattern `p` occurs in `s` starting at position `i`.
pub open spec fn occurs_at(s: Seq<char>, p: Seq<char>, i: int) -> bool {
    0 <= i && i + p.len() <= s.len() && s.subrange(i, i + p.len() as int) == p
}

/// The pattern `p` occurs somewhere in `s`.
pub open spec fn contains_seq(s: Seq<char>, p: Seq<char>) -> bool {
    exists|i: int| occurs_at(s, p, i)
}

/// Decides whether `p` occurs in `s` starting at position `i`.
fn matches_at(s: &str, p: &str, i: usize) -> (r: bool)
    requires
        i + p@.len() <= s@.len(),
    ensures
        r == occurs_at(s@, p@, i as int),
{
    let sl = s.unicode_len();
    let pl = p.unicode_len();
    let mut j: usize = 0;
    while j < pl
        invariant
            sl == s@.len(),
            pl == p@.len(),
            i + pl <= sl,
            j <= pl,
            forall|k: int| 0 <= k < j ==> s@[i + k] == p@[k],
        decreases pl - j,
    {
        if s.get_char(i + j) != p.get_char(j) {
            assert(!occurs_at(s@, p@, i as int)) by {
                if occurs_at(s@, p@, i as int) {
                    assert(s@.subrange(i as int, i + pl as int)[j as int] == p@[j as int]);
                }
            }
            return false;
        }
        j += 1;
    }
    assert(s@.subrange(i as int, i + pl as int) =~= p@) by {
        assert forall|k: int| 0 <= k < pl implies s@.subrange(i as int, i + pl as int)[k]
            == p@[k] by {
            assert(s@[i + k] == p@[k]);
        }
    }
    true
}

/// Decides whether `p` occurs anywhere in `s`.
pub fn contains_str(s: &str, p: &str) -> (r: bool)
    ensures
        r == contains_seq(s@, p@),
{
    let sl = s.unicode_len();
    let pl = p.unicode_len();
    if pl > sl {
        assert(!contains_seq(s@, p@)) by {
            if contains_seq(s@, p@) {
                let i = choose|i: int| occurs_at(s@, p@, i);
                assert(i + p@.len() <= s@.len());
            }
        }
        return false;
    }
    let bound = sl - pl;
    let mut i: usize = 0;
    while i < bound
        invariant
            sl == s@.len(),
            pl == p@.len(),
            pl <= sl,
            bound == sl - pl,
            i <= bound,
            forall|j: int| 0 <= j < i ==> !occurs_at(s@, p@, j),
        decreases bound - i,
    {
        if matches_at(s, p, i) {
            return true;
        }
        i += 1;
    }
    if matches_at(s, p, bound) {
        return true;
    }
    assert(!contains_seq(s@, p@)) by {
        if contains_seq(s@, p@) {
            let j = choose|j: int| occurs_at(s@, p@, j);
            assert(0 <= j <= bound);
        }
    }
    false
}

/// The heuristic policy accepts text that contains any of a fixed set of URL
/// markers: a scheme prefix, the `www.` prefix, or a common top-level domain.
pub open spec fn heuristic_accepts(s: Seq<char>) -> bool {
    ||| contains_seq(s, "http://"@)
    ||| contains_seq(s, "https://"@)
    ||| contains_seq(s, "www."@)
    ||| contains_seq(s, ".com"@)
    ||| contains_seq(s, ".org"@)
    ||| contains_seq(s, ".net"@)
}

/// Decides the heuristic policy on `s`.
pub fn heuristic_is_playable(s: &str) -> (r: bool)
    ensures
        r == heuristic_accepts(s@),
{
    contains_str(s, "http://") || contains_str(s, "https://") || contains_str(s, "www.")
        || contains_str(s, ".com") || contains_str(s, ".org") || contains_str(s, ".net")
}

/// Whether `s` parses as an absolute URL under the standard URL grammar.
/// The grammar is decided by the `url` crate; success is a function of the
/// characters of `s` alone.
pub uninterp spec fn parses_as_url(s: Seq<char>) -> bool;

/// Decides the strict policy on `s`.
///
/// Relies on `url::Url::parse`: a pure parse whose success depends on the
/// characters of the input alone.
#[verifier::external_body]
pub(crate) fn strict_is_playable(s: &str) -> (r: bool)
    ensures
        r == parses_as_url(s@),
{
    url::Url::parse(s).is_ok()
}

/// Which validation policy the watcher runs with; chosen once when the
/// watcher is built, never per call.
#[derive(Clone, Copy, PartialEq, Eq, Structural, Debug)]
pub enum Policy {
    /// Accept text containing a known URL marker.
    Heuristic,
    /// Accept only text that parses as an absolute URL.
    Strict,
}

/// What the chosen policy accepts.
pub open spec fn accepts(p: Policy, s: Seq<char>) -> bool {
    match p {
        Policy::Heuristic => heuristic_accepts(s),
        Policy::Strict => parses_as_url(s),
    }
}

/// Decides the chosen policy on `s`.
pub fn is_playable(p: Policy, s: &str) -> (r: bool)
    ensures
        r == accepts(p, s@),
{
    match p {
        Policy::Heuristic => heuristic_is_playable(s),
        Policy::Strict => strict_is_playable(s),
    }
}

} // verus!

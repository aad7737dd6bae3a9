//! Pattern evaluation for policy lists.
//!
//! Filesystem allow lists accept a candidate by literal prefix or by
//! glob; deny lists use globs alone.  Network entries match by suffix
//! or exact equality, and process entries by exact equality only.  A
//! pattern that fails to compile as a glob matches nothing; evaluation
//! simply goes on with the remaining patterns.

use vstd::prelude::*;

verus! {

/// Whether the glob pattern `pattern` matches `text` under the glob
/// crate's default match options.  A pattern that does not compile
/// matches nothing.
pub uninterp spec fn glob_fits(pattern: Seq<char>, text: Seq<char>) -> bool;

/// Relies on `glob::Pattern::new` and `glob::Pattern::matches`: with
/// the default options the result is a function of the pattern and the
/// text alone, and a pattern that fails to compile matches nothing.
#[verifier::external_body]
pub(crate) fn glob_match(pattern: &str, text: &str) -> (r: bool)
    ensures
        r == glob_fits(pattern@, text@),
{
    match glob::Pattern::new(pattern) {
        Ok(p) => p.matches(text),
        Err(_) => false,
    }
}

/// `prefix` is a literal prefix of `s`.
pub open spec fn is_prefix(prefix: Seq<char>, s: Seq<char>) -> bool {
    prefix.len() <= s.len() && s.subrange(0, prefix.len() as int) == prefix
}

/// `suffix` is a literal suffix of `s`.
pub open spec fn is_suffix(suffix: Seq<char>, s: Seq<char>) -> bool {
    suffix.len() <= s.len() && s.subrange(s.len() - suffix.len(), s.len() as int) == suffix
}

/// One allow-list pattern accepts a candidate: by literal prefix, or
/// by glob.
pub open spec fn pattern_matches(pattern: Seq<char>, candidate: Seq<char>) -> bool {
    is_prefix(pattern, candidate) || glob_fits(pattern, candidate)
}

/// Some pattern in the list accepts the candidate; order never affects
/// the outcome.
pub open spec fn matches_any(candidate: Seq<char>, patterns: Seq<Seq<char>>) -> bool {
    exists|i: int|
        0 <= i < patterns.len() && #[trigger] pattern_matches(patterns[i], candidate)
}

/// Some deny pattern matches the candidate; deny lists are evaluated
/// as globs only.
pub open spec fn denied_by(candidate: Seq<char>, patterns: Seq<Seq<char>>) -> bool {
    exists|i: int| 0 <= i < patterns.len() && #[trigger] glob_fits(patterns[i], candidate)
}

/// One network entry accepts a domain: the domain equals the entry or
/// ends with it, so an entry admits its subdomains.
pub open spec fn domain_entry_matches(entry: Seq<char>, domain: Seq<char>) -> bool {
    is_suffix(entry, domain) || entry == domain
}

/// Some network entry accepts the domain.
pub open spec fn domain_allowed_by(domain: Seq<char>, entries: Seq<Seq<char>>) -> bool {
    exists|i: int|
        0 <= i < entries.len() && #[trigger] domain_entry_matches(entries[i], domain)
}

/// Some process entry equals the command; nothing short of exact
/// equality counts.
pub open spec fn command_allowed_by(cmd: Seq<char>, entries: Seq<Seq<char>>) -> bool {
    exists|i: int| 0 <= i < entries.len() && #[trigger] entries[i] == cmd
}

/// Any match suffices, so the order of a pattern list never affects
/// the outcome: a candidate matches the concatenation of two lists
/// exactly when it matches either list, whichever comes first.
pub proof fn lemma_matches_any_append(candidate: Seq<char>, a: Seq<Seq<char>>, b: Seq<Seq<char>>)
    ensures
        matches_any(candidate, a + b) == (matches_any(candidate, a) || matches_any(
            candidate,
            b,
        )),
{
    if matches_any(candidate, a) {
        let i = choose|i: int| 0 <= i < a.len() && #[trigger] pattern_matches(a[i], candidate);
        assert((a + b)[i] == a[i]);
        assert(pattern_matches((a + b)[i], candidate));
    }
    if matches_any(candidate, b) {
        let i = choose|i: int| 0 <= i < b.len() && #[trigger] pattern_matches(b[i], candidate);
        assert((a + b)[a.len() + i] == b[i]);
        assert(pattern_matches((a + b)[a.len() + i], candidate));
    }
    if matches_any(candidate, a + b) {
        let i = choose|i: int|
            0 <= i < (a + b).len() && #[trigger] pattern_matches((a + b)[i], candidate);
        if i < a.len() {
            assert(a[i] == (a + b)[i]);
            assert(pattern_matches(a[i], candidate));
        } else {
            assert(b[i - a.len()] == (a + b)[i]);
            assert(pattern_matches(b[i - a.len()], candidate));
        }
    }
}

/// Literal prefix test on strings.
pub fn starts_with_str(s: &str, prefix: &str) -> (r: bool)
    ensures
        r == is_prefix(prefix@, s@),
{
    let np = prefix.unicode_len();
    let n = s.unicode_len();
    if np > n {
        return false;
    }
    let mut i: usize = 0;
    while i < np
        invariant
            i <= np,
            np == prefix@.len(),
            np <= n,
            n == s@.len(),
            forall|k: int| 0 <= k < i ==> s@[k] == prefix@[k],
        decreases np - i,
    {
        if s.get_char(i) != prefix.get_char(i) {
            proof {
                assert(s@.subrange(0, np as int)[i as int] == s@[i as int]);
            }
            return false;
        }
        i += 1;
    }
    proof {
        assert(s@.subrange(0, np as int) =~= prefix@);
    }
    true
}

/// Literal suffix test on strings.
pub fn ends_with_str(s: &str, suffix: &str) -> (r: bool)
    ensures
        r == is_suffix(suffix@, s@),
{
    let m = suffix.unicode_len();
    let n = s.unicode_len();
    if m > n {
        return false;
    }
    let off: usize = n - m;
    let mut i: usize = 0;
    while i < m
        invariant
            i <= m,
            m == suffix@.len(),
            m <= n,
            n == s@.len(),
            off == n - m,
            forall|k: int| 0 <= k < i ==> s@[off + k] == suffix@[k],
        decreases m - i,
    {
        if s.get_char(off + i) != suffix.get_char(i) {
            proof {
                assert(s@.subrange(n - m, n as int)[i as int] == s@[off + i]);
            }
            return false;
        }
        i += 1;
    }
    proof {
        assert(s@.subrange(n - m, n as int) =~= suffix@);
    }
    true
}

/// Tries each pattern in turn, first as a literal prefix and then as a
/// glob; any match accepts the candidate.
pub fn matches_any_pattern(candidate: &str, patterns: &Vec<String>) -> (r: bool)
    ensures
        r == matches_any(candidate@, patterns.deep_view()),
{
    let ghost dv = patterns.deep_view();
    let mut i: usize = 0;
    while i < patterns.len()
        invariant
            i <= patterns.len(),
            dv == patterns.deep_view(),
            forall|k: int| 0 <= k < i ==> !#[trigger] pattern_matches(dv[k], candidate@),
        decreases patterns.len() - i,
    {
        let p = &patterns[i];
        proof {
            assert(dv[i as int] == patterns@[i as int]@);
        }
        if starts_with_str(candidate, p.as_str()) {
            proof {
                assert(pattern_matches(dv[i as int], candidate@));
            }
            return true;
        }
        if glob_match(p.as_str(), candidate) {
            proof {
                assert(pattern_matches(dv[i as int], candidate@));
            }
            return true;
        }
        i += 1;
    }
    false
}

/// Tries each deny pattern as a glob; any match denies the candidate.
pub fn matches_deny_patterns(candidate: &str, patterns: &Vec<String>) -> (r: bool)
    ensures
        r == denied_by(candidate@, patterns.deep_view()),
{
    let ghost dv = patterns.deep_view();
    let mut i: usize = 0;
    while i < patterns.len()
        invariant
            i <= patterns.len(),
            dv == patterns.deep_view(),
            forall|k: int| 0 <= k < i ==> !#[trigger] glob_fits(dv[k], candidate@),
        decreases patterns.len() - i,
    {
        proof {
            assert(dv[i as int] == patterns@[i as int]@);
        }
        if glob_match(patterns[i].as_str(), candidate) {
            return true;
        }
        i += 1;
    }
    false
}

/// Suffix-or-exact matching of a domain against the allowed entries.
pub fn domain_in_list(domain: &str, entries: &Vec<String>) -> (r: bool)
    ensures
        r == domain_allowed_by(domain@, entries.deep_view()),
{
    let ghost dv = entries.deep_view();
    let mut i: usize = 0;
    while i < entries.len()
        invariant
            i <= entries.len(),
            dv == entries.deep_view(),
            forall|k: int| 0 <= k < i ==> !#[trigger] domain_entry_matches(dv[k], domain@),
        decreases entries.len() - i,
    {
        let e = &entries[i];
        proof {
            assert(dv[i as int] == entries@[i as int]@);
        }
        if ends_with_str(domain, e.as_str()) {
            proof {
                assert(domain_entry_matches(dv[i as int], domain@));
            }
            return true;
        }
        if e.as_str().unicode_len() == domain.unicode_len() && starts_with_str(
            domain,
            e.as_str(),
        ) {
            proof {
                assert(domain@.subrange(0, domain@.len() as int) =~= domain@);
                assert(dv[i as int] == domain@);
                assert(domain_entry_matches(dv[i as int], domain@));
            }
            return true;
        }
        proof {
            assert(domain@.subrange(
                domain@.len() - domain@.len(),
                domain@.len() as int,
            ) =~= domain@);
        }
        i += 1;
    }
    false
}

/// Exact-equality membership of a command in the allowed entries.
pub fn command_in_list(cmd: &str, entries: &Vec<String>) -> (r: bool)
    ensures
        r == command_allowed_by(cmd@, entries.deep_view()),
{
    let ghost dv = entries.deep_view();
    let mut i: usize = 0;
    while i < entries.len()
        invariant
            i <= entries.len(),
            dv == entries.deep_view(),
            forall|k: int| 0 <= k < i ==> #[trigger] dv[k] != cmd@,
        decreases entries.len() - i,
    {
        let e = &entries[i];
        proof {
            assert(dv[i as int] == entries@[i as int]@);
        }
        if e.as_str().unicode_len() == cmd.unicode_len() && starts_with_str(cmd, e.as_str()) {
            proof {
                assert(cmd@.subrange(0, cmd@.len() as int) =~= cmd@);
                assert(dv[i as int] == cmd@);
            }
            return true;
        }
        proof {
            assert(cmd@.subrange(0, cmd@.len() as int) =~= cmd@);
        }
        i += 1;
    }
    false
}

} // verus!

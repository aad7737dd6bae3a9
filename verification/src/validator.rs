//! Path validation against the filesystem rules.
//!
//! Every check canonicalizes the candidate path first, then applies
//! deny-overrides-allow: a deny-pattern match wins regardless of
//! allow-list membership, and absence from the allow list means
//! denial.

use vstd::prelude::*;

use crate::canon::{canonical_of, canonicalize_str, current_dir_string, spec_canonicalize};
use crate::is_abs;
use crate::pattern::{denied_by, matches_any, matches_any_pattern, matches_deny_patterns};
use crate::policy::FilesystemPolicy;

verus! {

/// Decision-time validation failure: the candidate path could not be
/// canonicalized because it is relative and the working directory was
/// unavailable.
#[derive(Clone, Copy, Debug, PartialEq, Eq, Structural)]
pub struct PathError;

/// The read verdict on an already-canonical path: not denied by any
/// deny pattern, and accepted by the read allow list.
pub open spec fn spec_read_allowed(fs: FilesystemPolicy, canon: Seq<char>) -> bool {
    &&& !denied_by(canon, fs.denied_patterns.deep_view())
    &&& matches_any(canon, fs.allowed_read.deep_view())
}

/// The write verdict on an already-canonical path.
pub open spec fn spec_write_allowed(fs: FilesystemPolicy, canon: Seq<char>) -> bool {
    &&& !denied_by(canon, fs.denied_patterns.deep_view())
    &&& matches_any(canon, fs.allowed_write.deep_view())
}

/// The read verdict on a raw path, canonicalized against `cwd`.
pub open spec fn spec_can_read(fs: FilesystemPolicy, path: Seq<char>, cwd: Seq<char>) -> bool {
    spec_read_allowed(fs, spec_canonicalize(path, cwd))
}

/// The write verdict on a raw path, canonicalized against `cwd`.
pub open spec fn spec_can_write(fs: FilesystemPolicy, path: Seq<char>, cwd: Seq<char>) -> bool {
    spec_write_allowed(fs, spec_canonicalize(path, cwd))
}

/// Canonicalizes a candidate path; a relative path needs the working
/// directory, which may be unavailable.
pub fn canonicalize_candidate(path: &str) -> (r: Result<String, PathError>)
    ensures
        is_abs(path@) ==> (r matches Ok(c) && c@ == canonical_of(path@)),
        r matches Ok(c) ==> exists|cwd: Seq<char>|
            is_abs(cwd) && c@ == spec_canonicalize(path@, cwd),
        r is Err ==> !is_abs(path@),
{
    if path.unicode_len() > 0 && path.get_char(0) == '/' {
        let c = canonicalize_str(path, "/");
        proof {
            reveal_strlit("/");
            assert(is_abs("/"@));
            assert(c@ == spec_canonicalize(path@, "/"@));
        }
        Ok(c)
    } else {
        match current_dir_string() {
            Some(cwd) => {
                let c = canonicalize_str(path, cwd.as_str());
                proof {
                    assert(is_abs(cwd@) && c@ == spec_canonicalize(path@, cwd@));
                }
                Ok(c)
            },
            None => Err(PathError),
        }
    }
}

/// Read check against one set of filesystem rules: deny patterns
/// first, then the read allow list.  The verdict for an absolute path
/// is pinned exactly; a relative path is judged against the working
/// directory of the moment.
pub fn check_read(fs: &FilesystemPolicy, path: &str) -> (r: Result<bool, PathError>)
    ensures
        is_abs(path@) ==> (r matches Ok(b) && b == spec_read_allowed(*fs, canonical_of(path@))),
        r matches Ok(b) ==> exists|cwd: Seq<char>|
            is_abs(cwd) && b == spec_can_read(*fs, path@, cwd),
        r is Err ==> !is_abs(path@),
{
    match canonicalize_candidate(path) {
        Ok(canonical) => {
            if matches_deny_patterns(canonical.as_str(), &fs.denied_patterns) {
                Ok(false)
            } else {
                Ok(matches_any_pattern(canonical.as_str(), &fs.allowed_read))
            }
        },
        Err(e) => Err(e),
    }
}

/// Write check against one set of filesystem rules: deny patterns
/// first, then the write allow list.
pub fn check_write(fs: &FilesystemPolicy, path: &str) -> (r: Result<bool, PathError>)
    ensures
        is_abs(path@) ==> (r matches Ok(b) && b == spec_write_allowed(*fs, canonical_of(path@))),
        r matches Ok(b) ==> exists|cwd: Seq<char>|
            is_abs(cwd) && b == spec_can_write(*fs, path@, cwd),
        r is Err ==> !is_abs(path@),
{
    match canonicalize_candidate(path) {
        Ok(canonical) => {
            if matches_deny_patterns(canonical.as_str(), &fs.denied_patterns) {
                Ok(false)
            } else {
                Ok(matches_any_pattern(canonical.as_str(), &fs.allowed_write))
            }
        },
        Err(e) => Err(e),
    }
}

/// Checks candidate paths against one set of filesystem rules.
pub struct PathValidator {
    pub policy: FilesystemPolicy,
}

impl PathValidator {
    pub fn new(policy: FilesystemPolicy) -> (v: PathValidator)
        ensures
            v.policy == policy,
    {
        PathValidator { policy }
    }

    /// Canonicalizes a candidate path against these rules' view of
    /// the world; the rules themselves play no part here.
    pub fn canonicalize_path(&self, path: &str) -> (r: Result<String, PathError>)
        ensures
            is_abs(path@) ==> (r matches Ok(c) && c@ == canonical_of(path@)),
            r matches Ok(c) ==> exists|cwd: Seq<char>|
                is_abs(cwd) && c@ == spec_canonicalize(path@, cwd),
            r is Err ==> !is_abs(path@),
    {
        canonicalize_candidate(path)
    }

    /// Read check: deny patterns first, then the read allow list.
    pub fn can_read(&self, path: &str) -> (r: Result<bool, PathError>)
        ensures
            is_abs(path@) ==> (r matches Ok(b) && b == spec_read_allowed(
                self.policy,
                canonical_of(path@),
            )),
            r matches Ok(b) ==> exists|cwd: Seq<char>|
                is_abs(cwd) && b == spec_can_read(self.policy, path@, cwd),
            r is Err ==> !is_abs(path@),
    {
        check_read(&self.policy, path)
    }

    /// Write check: deny patterns first, then the write allow list.
    pub fn can_write(&self, path: &str) -> (r: Result<bool, PathError>)
        ensures
            is_abs(path@) ==> (r matches Ok(b) && b == spec_write_allowed(
                self.policy,
                canonical_of(path@),
            )),
            r matches Ok(b) ==> exists|cwd: Seq<char>|
                is_abs(cwd) && b == spec_can_write(self.policy, path@, cwd),
            r is Err ==> !is_abs(path@),
    {
        check_write(&self.policy, path)
    }
}

/// Deny precedence, stated on its own: whatever the allow lists hold,
/// a path whose canonical form matches a deny pattern is never
/// readable and never writable.
pub proof fn lemma_deny_overrides_allow(fs: FilesystemPolicy, canon: Seq<char>)
    requires
        denied_by(canon, fs.denied_patterns.deep_view()),
    ensures
        !spec_read_allowed(fs, canon),
        !spec_write_allowed(fs, canon),
{
}

} // verus!

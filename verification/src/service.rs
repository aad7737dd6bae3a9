//! The network-service facade.
//!
//! The service maps each incoming request onto the shared decision
//! engine and back into a response shape.  Resource kinds without
//! enforcement logic yet answer with a distinguished `NotImplemented`
//! outcome — never a silent denial and never a crash — so callers can
//! tell a missing feature from a policy violation.  The transport
//! itself (connection handling, framing) lives outside the library.

use vstd::prelude::*;

use crate::canon::canonical_of;
use crate::engine::{engine_read_verdict, SecurityStatus};
use crate::is_abs;
use crate::policy::Policy;
use crate::validator::{check_read, spec_can_read, spec_read_allowed, PathValidator};

verus! {

/// What a decision-bearing call on the service yields: a verdict, a
/// distinguished not-yet-implemented answer, or a validation failure
/// (the path could not be canonicalized).
pub enum ServiceOutcome {
    Decision(SecurityStatus),
    NotImplemented,
    InvalidPath,
}

/// Engine version, health flag, and active-policy metadata — a thin
/// status surface, no part of the decision core.
pub struct StatusInfo {
    pub version: String,
    pub healthy: bool,
    pub policy_path: String,
    pub loaded_at: u64,
    pub memory_bytes: u64,
    pub cpu_percent: u32,
    pub active_connections: u32,
}

/// The filesystem verdict the service facade reports for a canonical
/// path: the flag and the violation codes.  Stated independently of
/// the engine's verdict so that agreement between the two facades is
/// a theorem, not a definition.
pub open spec fn service_read_verdict(fs: crate::policy::FilesystemPolicy, canon: Seq<char>) -> (
    bool,
    Seq<Seq<char>>,
) {
    if spec_read_allowed(fs, canon) {
        (true, Seq::<Seq<char>>::empty())
    } else {
        (false, seq!["path_not_allowed"@])
    }
}

/// The service facade over one validated policy.
pub struct EnforcementServiceImpl {
    pub validator: PathValidator,
}

impl EnforcementServiceImpl {
    pub fn new(policy: Policy) -> (s: EnforcementServiceImpl)
        ensures
            s.validator.policy == policy.filesystem,
    {
        let validator = PathValidator::new(policy.filesystem);
        EnforcementServiceImpl { validator }
    }

    /// Assembles a verdict from its parts.
    pub fn create_security_status(
        &self,
        allowed: bool,
        reason: String,
        violations: Vec<String>,
    ) -> (st: SecurityStatus)
        ensures
            st.allowed == allowed,
            st.reason == reason,
            st.violations == violations,
    {
        SecurityStatus { allowed, reason, violations }
    }

    /// The decision half of the file-read call: the verdict for the
    /// candidate path, before any byte is read.  An allowed verdict
    /// licenses the caller to perform the read; a path that cannot be
    /// canonicalized is a validation failure, not a denial.
    pub fn read_file_decision(&self, path: &str) -> (o: ServiceOutcome)
        ensures
            is_abs(path@) ==> ({
                let verdict = service_read_verdict(self.validator.policy, canonical_of(path@));
                &&& o matches ServiceOutcome::Decision(st)
                &&& st.allowed == verdict.0
                &&& st.violations.deep_view() == verdict.1
                &&& st.allowed ==> st.reason@ == "Access granted"@
                &&& !st.allowed ==> st.reason@ == "Path not in allowed read list"@
            }),
            o matches ServiceOutcome::Decision(st) ==> exists|cwd: Seq<char>|
                is_abs(cwd) && st.allowed == spec_can_read(self.validator.policy, path@, cwd),
            o is InvalidPath ==> !is_abs(path@),
            o is NotImplemented == false,
    {
        match check_read(&self.validator.policy, path) {
            Ok(true) => {
                let st = self.create_security_status(
                    true,
                    String::from_str("Access granted"),
                    crate::engine::no_violations(),
                );
                ServiceOutcome::Decision(st)
            },
            Ok(false) => {
                let st = self.create_security_status(
                    false,
                    String::from_str("Path not in allowed read list"),
                    crate::engine::one_violation("path_not_allowed"),
                );
                ServiceOutcome::Decision(st)
            },
            Err(_) => ServiceOutcome::InvalidPath,
        }
    }

    /// File writes are not enforced yet.
    pub fn write_file(&self, _path: &str) -> (o: ServiceOutcome)
        ensures
            o is NotImplemented,
    {
        ServiceOutcome::NotImplemented
    }

    /// Directory listing is not enforced yet.
    pub fn list_directory(&self, _path: &str) -> (o: ServiceOutcome)
        ensures
            o is NotImplemented,
    {
        ServiceOutcome::NotImplemented
    }

    /// Deletion is not enforced yet.
    pub fn delete_file(&self, _path: &str) -> (o: ServiceOutcome)
        ensures
            o is NotImplemented,
    {
        ServiceOutcome::NotImplemented
    }

    /// HTTP probing is not enforced yet.
    pub fn http_request(&self, _url: &str) -> (o: ServiceOutcome)
        ensures
            o is NotImplemented,
    {
        ServiceOutcome::NotImplemented
    }

    /// DNS probing is not enforced yet.
    pub fn dns_lookup(&self, _domain: &str) -> (o: ServiceOutcome)
        ensures
            o is NotImplemented,
    {
        ServiceOutcome::NotImplemented
    }

    /// Command execution with live resource accounting is not
    /// enforced yet.
    pub fn execute_command(&self, _command: &str) -> (o: ServiceOutcome)
        ensures
            o is NotImplemented,
    {
        ServiceOutcome::NotImplemented
    }

    /// Dynamic capability grants are not implemented.
    pub fn request_capability(&self, _capability: &str) -> (o: ServiceOutcome)
        ensures
            o is NotImplemented,
    {
        ServiceOutcome::NotImplemented
    }

    /// Dynamic capability revocation is not implemented.
    pub fn revoke_capability(&self, _capability: &str) -> (o: ServiceOutcome)
        ensures
            o is NotImplemented,
    {
        ServiceOutcome::NotImplemented
    }

    /// Audit-log streaming is not implemented.
    pub fn get_audit_logs(&self) -> (o: ServiceOutcome)
        ensures
            o is NotImplemented,
    {
        ServiceOutcome::NotImplemented
    }

    /// Engine version and health, with placeholder resource counters.
    pub fn get_status(&self) -> (st: StatusInfo)
        ensures
            st.version@ == "0.1.0"@,
            st.healthy,
            st.policy_path@ == "policy.toml"@,
            st.loaded_at == 0,
            st.memory_bytes == 0,
            st.cpu_percent == 0,
            st.active_connections == 0,
    {
        StatusInfo {
            version: String::from_str("0.1.0"),
            healthy: true,
            policy_path: String::from_str("policy.toml"),
            loaded_at: 0,
            memory_bytes: 0,
            cpu_percent: 0,
            active_connections: 0,
        }
    }
}

/// Cross-facade determinism: for one set of filesystem rules and one
/// canonical path, the service facade and the embedded engine report
/// the same allowed flag and the same violation codes.  (The file
/// read is the one resource kind both facades enforce.)
pub proof fn lemma_cross_facade_determinism(
    fs: crate::policy::FilesystemPolicy,
    canon: Seq<char>,
)
    ensures
        service_read_verdict(fs, canon).0 == engine_read_verdict(fs, canon).0,
        service_read_verdict(fs, canon).1 == engine_read_verdict(fs, canon).1,
{
}

} // verus!

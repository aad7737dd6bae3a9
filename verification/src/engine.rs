//! The embeddable enforcement engine.
//!
//! Constructed from a validated policy, the engine answers one
//! question per call — is this operation allowed, and why — without
//! ever performing the operation itself.  Every decision is a pure
//! function of the policy and the request; allowed decisions carry an
//! empty violation list.

use vstd::prelude::*;

use crate::canon::canonical_of;
use crate::is_abs;
use crate::pattern::{command_allowed_by, command_in_list, domain_allowed_by, domain_in_list};
use crate::policy::{spec_policy_valid, spec_validate, validate_policy, ConfigError, Policy};
use crate::validator::{check_read, check_write, spec_can_read, spec_can_write, spec_read_allowed, spec_write_allowed};

verus! {

/// The verdict of one enforcement check: the flag, a human-readable
/// reason, and machine-readable violation codes.
pub struct SecurityStatus {
    pub allowed: bool,
    pub reason: String,
    pub violations: Vec<String>,
}

/// Verdict of a network check.
pub struct NetworkCheckResult {
    pub allowed: bool,
    pub reason: String,
    pub violations: Vec<String>,
}

/// Verdict of a process-execution check.
pub struct ProcessCheckResult {
    pub allowed: bool,
    pub reason: String,
    pub violations: Vec<String>,
}

/// Outcome of a read performed under enforcement: the data when the
/// read was allowed and succeeded, and the verdict either way.
pub struct ReadFileResult {
    pub data: Option<Vec<u8>>,
    pub status: SecurityStatus,
}

/// Counts of the configured rules, for diagnostics.
pub struct PolicyStats {
    pub allowed_read: usize,
    pub allowed_write: usize,
    pub denied_patterns: usize,
    pub allowed_domains: usize,
    pub max_connections: u32,
    pub allowed_commands: usize,
    pub max_cpu_percent: u32,
    pub max_memory_mb: u64,
}

/// The filesystem verdict the engine reports for a canonical path
/// judged readable or not: the flag and the violation codes.
pub open spec fn engine_read_verdict(fs: crate::policy::FilesystemPolicy, canon: Seq<char>) -> (
    bool,
    Seq<Seq<char>>,
) {
    let allowed = spec_read_allowed(fs, canon);
    (allowed, if allowed {
        Seq::<Seq<char>>::empty()
    } else {
        seq!["path_not_allowed"@]
    })
}

/// A vector holding the one violation code `code`.
pub(crate) fn one_violation(code: &str) -> (v: Vec<String>)
    ensures
        v.deep_view() == seq![code@],
{
    let mut v: Vec<String> = Vec::new();
    v.push(String::from_str(code));
    proof {
        assert(v.deep_view() =~= seq![code@]);
    }
    v
}

/// The empty violation list.
pub(crate) fn no_violations() -> (v: Vec<String>)
    ensures
        v.deep_view() == Seq::<Seq<char>>::empty(),
{
    let v: Vec<String> = Vec::new();
    proof {
        assert(v.deep_view() =~= Seq::<Seq<char>>::empty());
    }
    v
}

/// The engine: an immutable, validated policy and nothing else.  All
/// decision calls are pure functions of the policy and the request.
pub struct EnforcementEngine {
    pub policy: Policy,
}

impl EnforcementEngine {
    /// Builds an engine from a parsed policy document; a document
    /// that breaks any invariant is rejected and no engine exists.
    pub fn new(policy: Policy) -> (r: Result<EnforcementEngine, ConfigError>)
        ensures
            r is Ok <==> spec_policy_valid(policy),
            r matches Ok(e) ==> e.policy == policy,
            r matches Err(er) ==> spec_validate(policy) == Err::<(), ConfigError>(er),
    {
        match validate_policy(&policy) {
            Ok(_) => Ok(EnforcementEngine { policy }),
            Err(e) => Err(e),
        }
    }

    /// Read check.  For an absolute path the verdict is the engine
    /// verdict on its canonical form; a relative path is judged
    /// against the working directory of the moment, and when that is
    /// unavailable the check reports a validation error, never a
    /// crash.
    pub fn can_read(&self, path: &str) -> (r: SecurityStatus)
        ensures
            is_abs(path@) ==> ({
                let verdict = engine_read_verdict(self.policy.filesystem, canonical_of(path@));
                &&& r.allowed == verdict.0
                &&& r.violations.deep_view() == verdict.1
                &&& r.allowed ==> r.reason@ == "Path is in allowed read list"@
                &&& !r.allowed ==> r.reason@ == "Path not in allowed read list"@
            }),
            r.allowed ==> r.violations.deep_view() == Seq::<Seq<char>>::empty(),
            (exists|cwd: Seq<char>|
                {
                    &&& is_abs(cwd)
                    &&& r.allowed == spec_can_read(self.policy.filesystem, path@, cwd)
                    &&& r.allowed ==> r.reason@ == "Path is in allowed read list"@
                    &&& !r.allowed ==> r.reason@ == "Path not in allowed read list"@
                        && r.violations.deep_view() == seq!["path_not_allowed"@]
                }) || ({
                &&& !is_abs(path@)
                &&& !r.allowed
                &&& r.reason@ == "Validation error: working directory unavailable"@
                &&& r.violations.deep_view() == seq!["validation_error"@]
            }),
    {
        let decision = check_read(&self.policy.filesystem, path);
        match decision {
            Ok(allowed_flag) => {
                let st = if allowed_flag {
                    SecurityStatus {
                        allowed: true,
                        reason: String::from_str("Path is in allowed read list"),
                        violations: no_violations(),
                    }
                } else {
                    SecurityStatus {
                        allowed: false,
                        reason: String::from_str("Path not in allowed read list"),
                        violations: one_violation("path_not_allowed"),
                    }
                };
                proof {
                    let cwd = choose|cwd: Seq<char>|
                        is_abs(cwd) && allowed_flag == spec_can_read(
                            self.policy.filesystem,
                            path@,
                            cwd,
                        );
                    assert(is_abs(cwd) && st.allowed == spec_can_read(
                        self.policy.filesystem,
                        path@,
                        cwd,
                    ));
                }
                st
            },
            Err(_) => SecurityStatus {
                allowed: false,
                reason: String::from_str("Validation error: working directory unavailable"),
                violations: one_violation("validation_error"),
            },
        }
    }

    /// Write check, the mirror image of `can_read` over the write
    /// allow list.
    pub fn can_write(&self, path: &str) -> (r: SecurityStatus)
        ensures
            is_abs(path@) ==> ({
                let allowed = spec_write_allowed(self.policy.filesystem, canonical_of(path@));
                &&& r.allowed == allowed
                &&& r.allowed ==> r.reason@ == "Path is in allowed write list"@
                &&& !r.allowed ==> r.reason@ == "Path not in allowed write list"@
                    && r.violations.deep_view() == seq!["path_not_allowed"@]
            }),
            r.allowed ==> r.violations.deep_view() == Seq::<Seq<char>>::empty(),
            (exists|cwd: Seq<char>|
                {
                    &&& is_abs(cwd)
                    &&& r.allowed == spec_can_write(self.policy.filesystem, path@, cwd)
                    &&& r.allowed ==> r.reason@ == "Path is in allowed write list"@
                    &&& !r.allowed ==> r.reason@ == "Path not in allowed write list"@
                        && r.violations.deep_view() == seq!["path_not_allowed"@]
                }) || ({
                &&& !is_abs(path@)
                &&& !r.allowed
                &&& r.reason@ == "Validation error: working directory unavailable"@
                &&& r.violations.deep_view() == seq!["validation_error"@]
            }),
    {
        let decision = check_write(&self.policy.filesystem, path);
        match decision {
            Ok(allowed_flag) => {
                let st = if allowed_flag {
                    SecurityStatus {
                        allowed: true,
                        reason: String::from_str("Path is in allowed write list"),
                        violations: no_violations(),
                    }
                } else {
                    SecurityStatus {
                        allowed: false,
                        reason: String::from_str("Path not in allowed write list"),
                        violations: one_violation("path_not_allowed"),
                    }
                };
                proof {
                    let cwd = choose|cwd: Seq<char>|
                        is_abs(cwd) && allowed_flag == spec_can_write(
                            self.policy.filesystem,
                            path@,
                            cwd,
                        );
                    assert(is_abs(cwd) && st.allowed == spec_can_write(
                        self.policy.filesystem,
                        path@,
                        cwd,
                    ));
                }
                st
            },
            Err(_) => SecurityStatus {
                allowed: false,
                reason: String::from_str("Validation error: working directory unavailable"),
                violations: one_violation("validation_error"),
            },
        }
    }

    /// Network check: the domain is allowed exactly when it equals an
    /// allowed entry or ends with one.
    pub fn can_network_request(&self, domain: &str) -> (r: NetworkCheckResult)
        ensures
            r.allowed == domain_allowed_by(
                domain@,
                self.policy.network.allowed_domains.deep_view(),
            ),
            r.allowed ==> r.reason@ == "Domain is in allowed list"@
                && r.violations.deep_view() == Seq::<Seq<char>>::empty(),
            !r.allowed ==> r.reason@ == "Domain '"@ + domain@ + "' not in allowed list"@
                && r.violations.deep_view() == seq!["domain_not_allowed"@],
    {
        if domain_in_list(domain, &self.policy.network.allowed_domains) {
            NetworkCheckResult {
                allowed: true,
                reason: String::from_str("Domain is in allowed list"),
                violations: no_violations(),
            }
        } else {
            let reason = String::from_str("Domain '").concat(domain).concat(
                "' not in allowed list",
            );
            NetworkCheckResult {
                allowed: false,
                reason,
                violations: one_violation("domain_not_allowed"),
            }
        }
    }

    /// Process check: the command is allowed exactly when it equals
    /// an allowed entry; a command with arguments never matches a
    /// bare entry.
    pub fn can_execute_command(&self, command: &str) -> (r: ProcessCheckResult)
        ensures
            r.allowed == command_allowed_by(
                command@,
                self.policy.process.allowed_commands.deep_view(),
            ),
            r.allowed ==> r.reason@ == "Command is in allowed list"@
                && r.violations.deep_view() == Seq::<Seq<char>>::empty(),
            !r.allowed ==> r.reason@ == "Command '"@ + command@ + "' not in allowed list"@
                && r.violations.deep_view() == seq!["command_not_allowed"@],
    {
        if command_in_list(command, &self.policy.process.allowed_commands) {
            ProcessCheckResult {
                allowed: true,
                reason: String::from_str("Command is in allowed list"),
                violations: no_violations(),
            }
        } else {
            let reason = String::from_str("Command '").concat(command).concat(
                "' not in allowed list",
            );
            ProcessCheckResult {
                allowed: false,
                reason,
                violations: one_violation("command_not_allowed"),
            }
        }
    }

    /// Counts of the configured rules.
    pub fn get_policy_stats(&self) -> (st: PolicyStats)
        ensures
            st.allowed_read == self.policy.filesystem.allowed_read@.len(),
            st.allowed_write == self.policy.filesystem.allowed_write@.len(),
            st.denied_patterns == self.policy.filesystem.denied_patterns@.len(),
            st.allowed_domains == self.policy.network.allowed_domains@.len(),
            st.max_connections == self.policy.network.max_connections,
            st.allowed_commands == self.policy.process.allowed_commands@.len(),
            st.max_cpu_percent == self.policy.process.max_cpu_percent,
            st.max_memory_mb == self.policy.process.max_memory_mb,
    {
        PolicyStats {
            allowed_read: self.policy.filesystem.allowed_read.len(),
            allowed_write: self.policy.filesystem.allowed_write.len(),
            denied_patterns: self.policy.filesystem.denied_patterns.len(),
            allowed_domains: self.policy.network.allowed_domains.len(),
            max_connections: self.policy.network.max_connections,
            allowed_commands: self.policy.process.allowed_commands.len(),
            max_cpu_percent: self.policy.process.max_cpu_percent,
            max_memory_mb: self.policy.process.max_memory_mb,
        }
    }
}

/// Combines a read decision with the outcome of the actual read the
/// caller performed after an allowed verdict.  A denial passes
/// through untouched; an I/O failure after an allowed decision is
/// reported as `file_read_error`, distinct from policy denial.
pub fn read_file_from_io(status: SecurityStatus, io: Option<Result<Vec<u8>, String>>) -> (r:
    ReadFileResult)
    ensures
        !status.allowed ==> r.data is None && r.status == status,
        status.allowed && io is Some && io->Some_0 is Ok ==> ({
            &&& r.data == Some(io->Some_0->Ok_0)
            &&& r.status.allowed
            &&& r.status.reason@ == "Access granted"@
            &&& r.status.violations.deep_view() == Seq::<Seq<char>>::empty()
        }),
        status.allowed && io is Some && io->Some_0 is Err ==> ({
            &&& r.data is None
            &&& !r.status.allowed
            &&& r.status.reason@ == "File read error: "@ + io->Some_0->Err_0@
            &&& r.status.violations.deep_view() == seq!["file_read_error"@]
        }),
        status.allowed && io is None ==> ({
            &&& r.data is None
            &&& !r.status.allowed
            &&& r.status.reason@ == "File read error: no data returned"@
            &&& r.status.violations.deep_view() == seq!["file_read_error"@]
        }),
{
    if !status.allowed {
        return ReadFileResult { data: None, status };
    }
    match io {
        Some(Ok(data)) => ReadFileResult {
            data: Some(data),
            status: SecurityStatus {
                allowed: true,
                reason: String::from_str("Access granted"),
                violations: no_violations(),
            },
        },
        Some(Err(e)) => ReadFileResult {
            data: None,
            status: SecurityStatus {
                allowed: false,
                reason: String::from_str("File read error: ").concat(e.as_str()),
                violations: one_violation("file_read_error"),
            },
        },
        None => ReadFileResult {
            data: None,
            status: SecurityStatus {
                allowed: false,
                reason: String::from_str("File read error: no data returned"),
                violations: one_violation("file_read_error"),
            },
        },
    }
}

} // verus!

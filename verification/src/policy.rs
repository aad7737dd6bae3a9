//! The policy data model and its load-time validation.
//!
//! A policy is immutable once constructed; validation happens exactly
//! once, and no later component re-checks the invariants.  A policy
//! that fails any invariant is never handed out.

use vstd::prelude::*;

verus! {

/// Filesystem rules: allow lists for reads and writes (prefixes or
/// globs) and deny patterns (globs, applied to reads and writes
/// alike).
pub struct FilesystemPolicy {
    pub allowed_read: Vec<String>,
    pub allowed_write: Vec<String>,
    pub denied_patterns: Vec<String>,
}

/// Network rules: allowed domain suffixes or exact names, blocked IP
/// literals, and the connection ceiling.
pub struct NetworkPolicy {
    pub allowed_domains: Vec<String>,
    pub blocked_ips: Vec<String>,
    pub max_connections: u32,
}

/// Process rules: exactly-matched allowed commands and resource
/// ceilings.
pub struct ProcessPolicy {
    pub allowed_commands: Vec<String>,
    pub max_cpu_percent: u32,
    pub max_memory_mb: u64,
}

/// Global resource ceilings.
pub struct ResourcePolicy {
    pub max_file_size_mb: u64,
    pub max_open_files: u32,
}

/// The root policy document, immutable once loaded.
pub struct Policy {
    pub filesystem: FilesystemPolicy,
    pub network: NetworkPolicy,
    pub process: ProcessPolicy,
    pub resources: ResourcePolicy,
}

/// The specific invariant a policy document broke.
#[derive(Clone, Copy, Debug, PartialEq, Eq, Structural)]
pub enum PolicyFault {
    /// Both the read and the write allow list are empty.
    NoAllowedPaths,
    /// `max_connections` is zero.
    ZeroMaxConnections,
    /// `max_cpu_percent` exceeds 100.
    CpuPercentTooHigh,
    /// `max_memory_mb` is zero.
    ZeroMaxMemory,
}

/// A fatal error while loading a policy: the source could not be
/// read, could not be parsed, or broke a semantic invariant.  Raised
/// only at load time; the engine refuses to exist with a bad policy.
#[derive(Clone, Copy, Debug, PartialEq, Eq, Structural)]
pub enum ConfigError {
    Read,
    Parse,
    Validation(PolicyFault),
}

/// The text for each load error, matching the messages the loader
/// reports.
pub open spec fn config_error_text(e: ConfigError) -> Seq<char> {
    match e {
        ConfigError::Read => "Failed to read policy file"@,
        ConfigError::Parse => "Failed to parse policy file"@,
        ConfigError::Validation(PolicyFault::NoAllowedPaths) => "Policy must specify at least one allowed read or write path"@,
        ConfigError::Validation(PolicyFault::ZeroMaxConnections) => "max_connections must be greater than 0"@,
        ConfigError::Validation(PolicyFault::CpuPercentTooHigh) => "max_cpu_percent cannot exceed 100"@,
        ConfigError::Validation(PolicyFault::ZeroMaxMemory) => "max_memory_mb must be greater than 0"@,
    }
}

impl ConfigError {
    /// Human-readable description of the load failure.
    pub fn message(&self) -> (r: String)
        ensures
            r@ == config_error_text(*self),
    {
        match self {
            ConfigError::Read => String::from_str("Failed to read policy file"),
            ConfigError::Parse => String::from_str("Failed to parse policy file"),
            ConfigError::Validation(PolicyFault::NoAllowedPaths) => String::from_str(
                "Policy must specify at least one allowed read or write path",
            ),
            ConfigError::Validation(PolicyFault::ZeroMaxConnections) => String::from_str(
                "max_connections must be greater than 0",
            ),
            ConfigError::Validation(PolicyFault::CpuPercentTooHigh) => String::from_str(
                "max_cpu_percent cannot exceed 100",
            ),
            ConfigError::Validation(PolicyFault::ZeroMaxMemory) => String::from_str(
                "max_memory_mb must be greater than 0",
            ),
        }
    }
}

/// The semantic invariants of a policy: at least one allow list non-empty,
/// a positive connection ceiling, a CPU ceiling of at most 100, and a
/// positive memory ceiling.
pub open spec fn spec_policy_valid(p: Policy) -> bool {
    &&& !(p.filesystem.allowed_read@.len() == 0 && p.filesystem.allowed_write@.len() == 0)
    &&& p.network.max_connections > 0
    &&& p.process.max_cpu_percent <= 100
    &&& p.process.max_memory_mb > 0
}

/// What validation returns: the invariants are checked in a fixed
/// order and the first broken one is reported.
pub open spec fn spec_validate(p: Policy) -> Result<(), ConfigError> {
    if p.filesystem.allowed_read@.len() == 0 && p.filesystem.allowed_write@.len() == 0 {
        Err(ConfigError::Validation(PolicyFault::NoAllowedPaths))
    } else if p.network.max_connections == 0 {
        Err(ConfigError::Validation(PolicyFault::ZeroMaxConnections))
    } else if p.process.max_cpu_percent > 100 {
        Err(ConfigError::Validation(PolicyFault::CpuPercentTooHigh))
    } else if p.process.max_memory_mb == 0 {
        Err(ConfigError::Validation(PolicyFault::ZeroMaxMemory))
    } else {
        Ok(())
    }
}

/// Checks the semantic invariants of a freshly parsed policy.  This
/// is the only place validation happens: a policy is valid exactly
/// when this returns `Ok`.
pub fn validate_policy(policy: &Policy) -> (r: Result<(), ConfigError>)
    ensures
        r == spec_validate(*policy),
        r is Ok <==> spec_policy_valid(*policy),
{
    if policy.filesystem.allowed_read.len() == 0 && policy.filesystem.allowed_write.len() == 0 {
        return Err(ConfigError::Validation(PolicyFault::NoAllowedPaths));
    }
    if policy.network.max_connections == 0 {
        return Err(ConfigError::Validation(PolicyFault::ZeroMaxConnections));
    }
    if policy.process.max_cpu_percent > 100 {
        return Err(ConfigError::Validation(PolicyFault::CpuPercentTooHigh));
    }
    if policy.process.max_memory_mb == 0 {
        return Err(ConfigError::Validation(PolicyFault::ZeroMaxMemory));
    }
    Ok(())
}

} // verus!

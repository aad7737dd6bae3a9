use openclaw_enforce::policy::{
    validate_policy, ConfigError, FilesystemPolicy, NetworkPolicy, Policy, PolicyFault,
    ProcessPolicy, ResourcePolicy,
};

fn base_policy() -> Policy {
    Policy {
        filesystem: FilesystemPolicy {
            allowed_read: vec!["/tmp".to_string()],
            allowed_write: vec!["/tmp".to_string()],
            denied_patterns: vec!["*.key".to_string()],
        },
        network: NetworkPolicy {
            allowed_domains: vec!["example.com".to_string()],
            blocked_ips: vec![],
            max_connections: 10,
        },
        process: ProcessPolicy {
            allowed_commands: vec!["ls".to_string(), "cat".to_string()],
            max_cpu_percent: 50,
            max_memory_mb: 1024,
        },
        resources: ResourcePolicy {
            max_file_size_mb: 100,
            max_open_files: 1000,
        },
    }
}

#[test]
fn test_validate_valid_policy() {
    assert!(validate_policy(&base_policy()).is_ok());
}

#[test]
fn test_validate_both_allow_lists_empty() {
    let mut p = base_policy();
    p.filesystem.allowed_read = vec![];
    p.filesystem.allowed_write = vec![];
    assert_eq!(
        validate_policy(&p),
        Err(ConfigError::Validation(PolicyFault::NoAllowedPaths))
    );
}

#[test]
fn test_validate_one_allow_list_suffices() {
    let mut p = base_policy();
    p.filesystem.allowed_read = vec![];
    assert!(validate_policy(&p).is_ok());
}

#[test]
fn test_validate_zero_max_connections() {
    let mut p = base_policy();
    p.network.max_connections = 0;
    assert_eq!(
        validate_policy(&p),
        Err(ConfigError::Validation(PolicyFault::ZeroMaxConnections))
    );
}

#[test]
fn test_validate_cpu_percent_too_high() {
    let mut p = base_policy();
    p.process.max_cpu_percent = 101;
    assert_eq!(
        validate_policy(&p),
        Err(ConfigError::Validation(PolicyFault::CpuPercentTooHigh))
    );
}

#[test]
fn test_validate_cpu_percent_boundary() {
    let mut p = base_policy();
    p.process.max_cpu_percent = 100;
    assert!(validate_policy(&p).is_ok());
}

#[test]
fn test_validate_zero_max_memory() {
    let mut p = base_policy();
    p.process.max_memory_mb = 0;
    assert_eq!(
        validate_policy(&p),
        Err(ConfigError::Validation(PolicyFault::ZeroMaxMemory))
    );
}

#[test]
fn test_config_error_messages() {
    assert_eq!(
        ConfigError::Validation(PolicyFault::ZeroMaxConnections).message(),
        "max_connections must be greater than 0"
    );
    assert_eq!(
        ConfigError::Validation(PolicyFault::NoAllowedPaths).message(),
        "Policy must specify at least one allowed read or write path"
    );
    assert_eq!(
        ConfigError::Validation(PolicyFault::CpuPercentTooHigh).message(),
        "max_cpu_percent cannot exceed 100"
    );
    assert_eq!(
        ConfigError::Validation(PolicyFault::ZeroMaxMemory).message(),
        "max_memory_mb must be greater than 0"
    );
    assert_eq!(ConfigError::Read.message(), "Failed to read policy file");
    assert_eq!(ConfigError::Parse.message(), "Failed to parse policy file");
}

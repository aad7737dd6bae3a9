use openclaw_enforce::engine::{read_file_from_io, EnforcementEngine};
use openclaw_enforce::policy::{
    ConfigError, FilesystemPolicy, NetworkPolicy, Policy, PolicyFault, ProcessPolicy,
    ResourcePolicy,
};
use openclaw_enforce::service::{EnforcementServiceImpl, ServiceOutcome};

fn test_policy() -> Policy {
    Policy {
        filesystem: FilesystemPolicy {
            allowed_read: vec!["/tmp".to_string()],
            allowed_write: vec!["/tmp".to_string()],
            denied_patterns: vec!["*.key".to_string()],
        },
        network: NetworkPolicy {
            allowed_domains: vec!["example.com".to_string()],
            blocked_ips: vec![],
            max_connections: 10,
        },
        process: ProcessPolicy {
            allowed_commands: vec!["ls".to_string()],
            max_cpu_percent: 50,
            max_memory_mb: 1024,
        },
        resources: ResourcePolicy {
            max_file_size_mb: 100,
            max_open_files: 1000,
        },
    }
}

fn engine() -> EnforcementEngine {
    EnforcementEngine::new(test_policy()).unwrap()
}

#[test]
fn test_engine_refuses_invalid_policy() {
    let mut p = test_policy();
    p.network.max_connections = 0;
    match EnforcementEngine::new(p) {
        Ok(_) => panic!("engine accepted an invalid policy"),
        Err(e) => assert_eq!(e, ConfigError::Validation(PolicyFault::ZeroMaxConnections)),
    }
}

#[test]
fn test_engine_can_read_allowed() {
    let st = engine().can_read("/tmp/a.txt");
    assert!(st.allowed);
    assert_eq!(st.reason, "Path is in allowed read list");
    assert!(st.violations.is_empty());
}

#[test]
fn test_engine_can_read_denied() {
    let st = engine().can_read("/etc/passwd");
    assert!(!st.allowed);
    assert_eq!(st.reason, "Path not in allowed read list");
    assert_eq!(st.violations, vec!["path_not_allowed".to_string()]);
}

#[test]
fn test_engine_deny_pattern_wins() {
    let st = engine().can_read("/tmp/a.key");
    assert!(!st.allowed);
    assert_eq!(st.violations, vec!["path_not_allowed".to_string()]);
}

#[test]
fn test_engine_can_write_allowed() {
    let st = engine().can_write("/tmp/x");
    assert!(st.allowed);
    assert_eq!(st.reason, "Path is in allowed write list");
    assert!(st.violations.is_empty());
}

#[test]
fn test_engine_can_write_denied() {
    let st = engine().can_write("/home/user/docs/x");
    assert!(!st.allowed);
    assert_eq!(st.reason, "Path not in allowed write list");
    assert_eq!(st.violations, vec!["path_not_allowed".to_string()]);
}

#[test]
fn test_network_exact_domain() {
    let r = engine().can_network_request("example.com");
    assert!(r.allowed);
    assert_eq!(r.reason, "Domain is in allowed list");
    assert!(r.violations.is_empty());
}

#[test]
fn test_network_subdomain_suffix() {
    let r = engine().can_network_request("api.example.com");
    assert!(r.allowed);
}

#[test]
fn test_network_suffix_spoof_denied() {
    let r = engine().can_network_request("example.com.evil.com");
    assert!(!r.allowed);
    assert_eq!(r.reason, "Domain 'example.com.evil.com' not in allowed list");
    assert_eq!(r.violations, vec!["domain_not_allowed".to_string()]);
}

#[test]
fn test_process_exact_command() {
    let r = engine().can_execute_command("ls");
    assert!(r.allowed);
    assert_eq!(r.reason, "Command is in allowed list");
    assert!(r.violations.is_empty());
}

#[test]
fn test_process_command_with_arguments_denied() {
    let r = engine().can_execute_command("ls -la");
    assert!(!r.allowed);
    assert_eq!(r.reason, "Command 'ls -la' not in allowed list");
    assert_eq!(r.violations, vec!["command_not_allowed".to_string()]);
}

#[test]
fn test_policy_stats() {
    let st = engine().get_policy_stats();
    assert_eq!(st.allowed_read, 1);
    assert_eq!(st.allowed_write, 1);
    assert_eq!(st.denied_patterns, 1);
    assert_eq!(st.allowed_domains, 1);
    assert_eq!(st.max_connections, 10);
    assert_eq!(st.allowed_commands, 1);
    assert_eq!(st.max_cpu_percent, 50);
    assert_eq!(st.max_memory_mb, 1024);
}

#[test]
fn test_read_file_from_io_success() {
    let st = engine().can_read("/tmp/a.txt");
    let r = read_file_from_io(st, Some(Ok(vec![1, 2, 3])));
    assert_eq!(r.data, Some(vec![1, 2, 3]));
    assert!(r.status.allowed);
    assert_eq!(r.status.reason, "Access granted");
    assert!(r.status.violations.is_empty());
}

#[test]
fn test_read_file_from_io_failure_distinct_from_denial() {
    let st = engine().can_read("/tmp/a.txt");
    assert!(st.allowed);
    let r = read_file_from_io(st, Some(Err("file vanished".to_string())));
    assert!(r.data.is_none());
    assert!(!r.status.allowed);
    assert_eq!(r.status.reason, "File read error: file vanished");
    assert_eq!(r.status.violations, vec!["file_read_error".to_string()]);
}

#[test]
fn test_read_file_from_io_denied_passthrough() {
    let st = engine().can_read("/etc/passwd");
    let r = read_file_from_io(st, None);
    assert!(r.data.is_none());
    assert!(!r.status.allowed);
    assert_eq!(r.status.violations, vec!["path_not_allowed".to_string()]);
}

#[test]
fn test_service_read_decision_matches_engine() {
    // Cross-facade determinism: same allowed flag and violation codes
    // from the service facade and the embedded engine.
    let service = EnforcementServiceImpl::new(test_policy());
    for path in ["/tmp/a.txt", "/tmp/a.key", "/etc/passwd", "/tmp/../x"] {
        let engine_status = engine().can_read(path);
        match service.read_file_decision(path) {
            ServiceOutcome::Decision(st) => {
                assert_eq!(st.allowed, engine_status.allowed);
                assert_eq!(st.violations, engine_status.violations);
            }
            _ => panic!("service returned no decision for {path}"),
        }
    }
}

#[test]
fn test_service_unimplemented_kinds() {
    let service = EnforcementServiceImpl::new(test_policy());
    assert!(matches!(service.write_file("/tmp/x"), ServiceOutcome::NotImplemented));
    assert!(matches!(service.list_directory("/tmp"), ServiceOutcome::NotImplemented));
    assert!(matches!(service.delete_file("/tmp/x"), ServiceOutcome::NotImplemented));
    assert!(matches!(service.http_request("https://example.com"), ServiceOutcome::NotImplemented));
    assert!(matches!(service.dns_lookup("example.com"), ServiceOutcome::NotImplemented));
    assert!(matches!(service.execute_command("ls"), ServiceOutcome::NotImplemented));
    assert!(matches!(service.request_capability("net"), ServiceOutcome::NotImplemented));
    assert!(matches!(service.revoke_capability("net"), ServiceOutcome::NotImplemented));
    assert!(matches!(service.get_audit_logs(), ServiceOutcome::NotImplemented));
}

#[test]
fn test_service_get_status() {
    let service = EnforcementServiceImpl::new(test_policy());
    let st = service.get_status();
    assert_eq!(st.version, "0.1.0");
    assert!(st.healthy);
    assert_eq!(st.policy_path, "policy.toml");
    assert_eq!(st.loaded_at, 0);
}

#[test]
fn test_service_read_file_decision_allowed_reason() {
    let service = EnforcementServiceImpl::new(test_policy());
    match service.read_file_decision("/tmp/data.bin") {
        ServiceOutcome::Decision(st) => {
            assert!(st.allowed);
            assert_eq!(st.reason, "Access granted");
            assert!(st.violations.is_empty());
        }
        _ => panic!("expected a decision"),
    }
}

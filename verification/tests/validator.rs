use openclaw_enforce::policy::FilesystemPolicy;
use openclaw_enforce::validator::PathValidator;

fn create_test_policy() -> FilesystemPolicy {
    FilesystemPolicy {
        allowed_read: vec!["/tmp".to_string(), "/home/user/documents".to_string()],
        allowed_write: vec!["/tmp".to_string()],
        denied_patterns: vec!["*.key".to_string(), "*.pem".to_string()],
    }
}

#[test]
fn test_can_read_allowed_path() {
    let validator = PathValidator::new(create_test_policy());
    let result = validator.can_read("/tmp/test.txt");
    assert!(result.is_ok());
    assert!(result.unwrap());
}

#[test]
fn test_can_read_denied_pattern() {
    let validator = PathValidator::new(create_test_policy());
    let result = validator.can_read("/tmp/secret.key");
    assert!(result.is_ok());
    assert!(!result.unwrap());
}

#[test]
fn test_can_write_allowed_path() {
    let validator = PathValidator::new(create_test_policy());
    let result = validator.can_write("/tmp/output.txt");
    assert!(result.is_ok());
    assert!(result.unwrap());
}

#[test]
fn test_can_write_denied_path() {
    let validator = PathValidator::new(create_test_policy());
    let result = validator.can_write("/home/user/documents/file.txt");
    assert!(result.is_ok());
    assert!(!result.unwrap());
}

#[test]
fn test_deny_overrides_allow_prefix() {
    // "/tmp/a.key" matches the allow prefix "/tmp", yet the deny
    // pattern "*.key" wins.
    let validator = PathValidator::new(create_test_policy());
    let result = validator.can_read("/tmp/a.key");
    assert!(result.is_ok());
    assert!(!result.unwrap());
}

#[test]
fn test_can_read_outside_allowed() {
    let validator = PathValidator::new(create_test_policy());
    let result = validator.can_read("/etc/passwd");
    assert!(result.is_ok());
    assert!(!result.unwrap());
}

#[test]
fn test_allow_list_glob_entry() {
    // An allow entry that is no prefix of the candidate still accepts
    // it as a glob.
    let validator = PathValidator::new(FilesystemPolicy {
        allowed_read: vec!["/var/*.txt".to_string()],
        allowed_write: vec![],
        denied_patterns: vec![],
    });
    assert!(validator.can_read("/var/notes.txt").unwrap());
    assert!(!validator.can_read("/var/notes.log").unwrap());
}

#[test]
fn test_traversal_is_normalized_before_matching() {
    // ".." segments are resolved lexically before the allow list is
    // consulted, so a traversal cannot smuggle a path into "/tmp".
    let validator = PathValidator::new(create_test_policy());
    assert!(!validator.can_read("/tmp/../etc/passwd").unwrap());
    assert!(validator.can_read("/etc/../tmp/notes.txt").unwrap());
}

#[test]
fn test_canonicalize_absolute_path() {
    let validator = PathValidator::new(create_test_policy());
    let c = validator.canonicalize_path("/tmp/./a/../b.txt").unwrap();
    assert_eq!(c, "/tmp/b.txt");
}

#[test]
fn test_canonicalize_idempotent() {
    let validator = PathValidator::new(create_test_policy());
    for p in [
        "/tmp/test.txt",
        "/a/b/../c/./d",
        "relative/path.txt",
        "",
        "/",
        "//double//slash/",
        "/../..",
    ] {
        let once = validator.canonicalize_path(p).unwrap();
        let twice = validator.canonicalize_path(&once).unwrap();
        assert_eq!(once, twice);
    }
}

#[test]
fn test_canonicalize_relative_path_is_absolute() {
    let validator = PathValidator::new(create_test_policy());
    let c = validator.canonicalize_path("some/relative.txt").unwrap();
    assert!(c.starts_with('/'));
    assert!(c.ends_with("/some/relative.txt"));
}

#[test]
fn test_root_collapses() {
    let validator = PathValidator::new(create_test_policy());
    assert_eq!(validator.canonicalize_path("/..").unwrap(), "/");
    assert_eq!(validator.canonicalize_path("/./.").unwrap(), "/");
}

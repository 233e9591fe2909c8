//! Every error variant, and the exact inputs that produce it.

use ver_sync::{check_version, process_member, process_root, FieldSync, SyncError, VersionValue};

#[test]
fn root_without_workspace_section_is_fatal() {
    let r = process_root(&"[package]\nname = \"x\"\n".to_string(), &"1".to_string(), false);
    assert!(matches!(r, Err(SyncError::MissingSection { ref section }) if section == "workspace"));
}

#[test]
fn root_without_members_is_fatal() {
    let r = process_root(&"[workspace]\n".to_string(), &"1".to_string(), false);
    assert!(matches!(r, Err(SyncError::MissingField { ref field }) if field == "members"));
}

#[test]
fn members_that_are_not_an_array_of_strings_are_fatal() {
    let r = process_root(&"[workspace]\nmembers = \"a\"\n".to_string(), &"1".to_string(), false);
    assert!(matches!(r, Err(SyncError::SchemaMismatch { ref field }) if field == "members"));
    let r = process_root(&"[workspace]\nmembers = [1, 2]\n".to_string(), &"1".to_string(), false);
    assert!(matches!(r, Err(SyncError::SchemaMismatch { ref field }) if field == "members"));
}

#[test]
fn root_shared_version_must_be_a_string() {
    let text = "[workspace]\nmembers = []\n\n[workspace.package]\nversion = 5\n";
    let r = process_root(&text.to_string(), &"1".to_string(), false);
    assert!(matches!(r, Err(SyncError::SchemaMismatch { ref field }) if field == "version"));
    // An inheritance marker is meaningless at the root and rejected too.
    let text = "[workspace]\nmembers = []\n\n[workspace.package]\nversion.workspace = true\n";
    let r = process_root(&text.to_string(), &"1".to_string(), false);
    assert!(matches!(r, Err(SyncError::SchemaMismatch { ref field }) if field == "version"));
}

#[test]
fn member_without_package_section_is_fatal() {
    let r = process_member(&"[dependencies]\n".to_string(), &vec![], &"1".to_string(), false);
    assert!(matches!(r, Err(SyncError::MissingSection { ref section }) if section == "package"));
}

#[test]
fn member_without_version_is_fatal() {
    let r = process_member(&"[package]\nname = \"a\"\n".to_string(), &vec![], &"1".to_string(), false);
    assert!(matches!(r, Err(SyncError::MissingField { ref field }) if field == "version"));
}

#[test]
fn member_version_that_is_no_string_is_fatal() {
    let r = process_member(&"[package]\nversion = 5\n".to_string(), &vec![], &"1".to_string(), false);
    assert!(matches!(r, Err(SyncError::SchemaMismatch { ref field }) if field == "version"));
}

#[test]
fn eligible_dependency_with_invalid_pin_is_fatal_and_named() {
    let text = "[package]\nversion = \"1\"\n\n[dependencies]\na = { version = 5 }\n";
    let members = vec!["a".to_string()];
    let r = process_member(&text.to_string(), &members, &"1".to_string(), false);
    assert!(matches!(r, Err(SyncError::SchemaMismatch { ref field }) if field == "a"));
    // The same shape on a non-member is skipped, not an error.
    let r = process_member(&text.to_string(), &vec![], &"1".to_string(), false);
    assert!(r.is_ok());
}

#[test]
fn unparsable_toml_is_fatal() {
    let r = process_root(&"= not toml".to_string(), &"1".to_string(), false);
    match r {
        Err(SyncError::Parse { message }) => assert!(!message.is_empty()),
        _ => panic!("expected a parse error"),
    }
    let r = process_member(&"[package".to_string(), &vec![], &"1".to_string(), false);
    assert!(matches!(r, Err(SyncError::Parse { .. })));
}

#[test]
fn describe_names_the_offender() {
    let e = SyncError::MissingSection { section: "workspace".to_string() };
    assert_eq!(e.describe(), "workspace");
    let e = SyncError::SchemaMismatch { field: "version".to_string() };
    assert_eq!(e.describe(), "version");
}

#[test]
fn check_version_handles_each_shape() {
    let target = "2".to_string();
    let same = check_version(&VersionValue::Literal("2".to_string()), &target, true).unwrap();
    assert!(!same.mismatch);
    let moved: FieldSync = check_version(&VersionValue::Literal("1".to_string()), &target, true).unwrap();
    assert!(moved.mismatch);
    assert!(matches!(&moved.value, VersionValue::Literal(s) if s == "2"));
    let kept = check_version(&VersionValue::Literal("1".to_string()), &target, false).unwrap();
    assert!(kept.mismatch);
    assert!(matches!(&kept.value, VersionValue::Literal(s) if s == "1"));
    let inherit = check_version(&VersionValue::Inherit, &target, true).unwrap();
    assert!(!inherit.mismatch);
    assert!(matches!(inherit.value, VersionValue::Inherit));
    assert!(check_version(&VersionValue::Invalid, &target, true).is_none());
}

//! End-to-end passes over small workspaces: a write run rewrites exactly
//! the version scalars, a verify run rewrites nothing and reports every
//! mismatch, and a workspace already at the target is left in peace.

use ver_sync::{process_member, process_root, ChangeAggregate};

const ROOT: &str = "# release tool test bed\n[workspace]\nmembers = [\"a\", \"b\"]\n";

const MEMBER_A: &str = "[package]\nname = \"a\"\nversion = \"0.1.0\"\n";

const MEMBER_B: &str = "[package]\nname = \"b\"\nversion = \"0.1.0\"\n\n[dependencies]\na = { version = \"0.1.0\", path = \"../a\" }\next = \"1.0\"\n";

const MEMBER_A_AFTER: &str = "[package]\nname = \"a\"\nversion = \"0.2.0\"\n";

const MEMBER_B_AFTER: &str = "[package]\nname = \"b\"\nversion = \"0.2.0\"\n\n[dependencies]\na = { version = \"0.2.0\", path = \"../a\" }\next = \"1.0\"\n";

#[test]
fn scenario_update_rewrites_all_three_occurrences() {
    let target = "0.2.0".to_string();
    let root = process_root(&ROOT.to_string(), &target, true).unwrap();
    assert!(!root.shared_declared);
    assert!(!root.mismatch);
    assert!(!root.changed);
    assert!(root.updated_text.is_none());
    assert_eq!(root.model.members, vec!["a".to_string(), "b".to_string()]);

    let a = process_member(&MEMBER_A.to_string(), &root.model.members, &target, true).unwrap();
    assert!(a.mismatch);
    assert!(a.changed);
    assert_eq!(a.updated_text.as_deref(), Some(MEMBER_A_AFTER));
    assert_eq!(a.notes.len(), 1);
    assert!(a.notes[0].dep.is_none());
    assert_eq!(a.notes[0].old, "0.1.0");

    let b = process_member(&MEMBER_B.to_string(), &root.model.members, &target, true).unwrap();
    assert!(b.mismatch);
    assert!(b.changed);
    assert_eq!(b.updated_text.as_deref(), Some(MEMBER_B_AFTER));
    assert_eq!(b.notes.len(), 2);
    assert!(b.notes[0].dep.is_none());
    assert_eq!(b.notes[1].dep.as_deref(), Some("a"));
    assert_eq!(b.notes[1].old, "0.1.0");
}

#[test]
fn scenario_check_reports_three_mismatches_and_writes_nothing() {
    let target = "0.2.0".to_string();
    let root = process_root(&ROOT.to_string(), &target, false).unwrap();
    assert!(!root.mismatch);
    assert!(root.updated_text.is_none());

    let a = process_member(&MEMBER_A.to_string(), &root.model.members, &target, false).unwrap();
    let b = process_member(&MEMBER_B.to_string(), &root.model.members, &target, false).unwrap();
    assert!(a.mismatch && b.mismatch);
    assert!(!a.changed && !b.changed);
    assert!(a.updated_text.is_none());
    assert!(b.updated_text.is_none());
    assert_eq!(a.notes.len() + b.notes.len(), 3);

    let mut agg = ChangeAggregate::new(root.changed, root.mismatch);
    agg.record_member(a.changed, a.mismatch);
    agg.record_member(b.changed, b.mismatch);
    assert!(!agg.any_member_changed);
    assert!(agg.any_mismatch);
    assert!(agg.verify_failed(true));
    assert!(!agg.verify_failed(false));
}

#[test]
fn scenario_check_succeeds_once_everything_matches() {
    let target = "0.2.0".to_string();
    let root = process_root(&ROOT.to_string(), &target, false).unwrap();
    let a = process_member(&MEMBER_A_AFTER.to_string(), &root.model.members, &target, false).unwrap();
    let b = process_member(&MEMBER_B_AFTER.to_string(), &root.model.members, &target, false).unwrap();
    assert!(!a.mismatch && !b.mismatch);
    assert!(a.notes.is_empty() && b.notes.is_empty());

    let mut agg = ChangeAggregate::new(root.changed, root.mismatch);
    agg.record_member(a.changed, a.mismatch);
    agg.record_member(b.changed, b.mismatch);
    assert!(!agg.verify_failed(true));
}

#[test]
fn update_is_idempotent_second_pass_changes_nothing() {
    let target = "0.2.0".to_string();
    let members = vec!["a".to_string(), "b".to_string()];
    let first = process_member(&MEMBER_B.to_string(), &members, &target, true).unwrap();
    let settled = first.updated_text.unwrap();
    let second = process_member(&settled, &members, &target, true).unwrap();
    assert!(!second.mismatch);
    assert!(!second.changed);
    assert!(second.updated_text.is_none());
    assert!(second.notes.is_empty());
}

#[test]
fn check_run_keeps_every_byte() {
    let target = "0.9.9".to_string();
    let members = vec!["a".to_string(), "b".to_string()];
    let a = process_member(&MEMBER_A.to_string(), &members, &target, false).unwrap();
    assert!(a.mismatch);
    assert!(a.updated_text.is_none());
    let root = process_root(&ROOT.to_string(), &target, false).unwrap();
    assert!(root.updated_text.is_none());
}

#[test]
fn update_touches_only_the_version_scalars() {
    // A manifest dressed up with comments and odd spacing: everything but
    // the two version scalars must come through byte-for-byte.
    let before = "# keep me\n[package]\nname   = \"b\"   # padded\nversion = \"0.1.0\"\n\n[dependencies]\n# internal pin\na = { version = \"0.1.0\", path = \"../a\" }\n";
    let after = "# keep me\n[package]\nname   = \"b\"   # padded\nversion = \"0.3.0\"\n\n[dependencies]\n# internal pin\na = { version = \"0.3.0\", path = \"../a\" }\n";
    let members = vec!["a".to_string(), "b".to_string()];
    let out = process_member(&before.to_string(), &members, &"0.3.0".to_string(), true).unwrap();
    assert_eq!(out.updated_text.as_deref(), Some(after));
}

#[test]
fn shared_root_version_is_rewritten_in_place() {
    let before = "[workspace]\nmembers = [\"a\"]\n\n[workspace.package]\nversion = \"0.1.0\"\n";
    let after = "[workspace]\nmembers = [\"a\"]\n\n[workspace.package]\nversion = \"0.2.0\"\n";
    let root = process_root(&before.to_string(), &"0.2.0".to_string(), true).unwrap();
    assert!(root.shared_declared);
    assert!(root.mismatch);
    assert!(root.changed);
    assert_eq!(root.updated_text.as_deref(), Some(after));
    let note = root.note.unwrap();
    assert!(note.dep.is_none());
    assert_eq!(note.old, "0.1.0");
}

//! Which fields a pass may touch: dependency filtering, inheritance
//! markers, and the equivalence of targets with and without a leading 'v'.

use ver_sync::{process_member, process_root, Args, DepValue, SubCommand, VersionValue, sync_member, MemberModel, DepEntry};

#[test]
fn external_and_bare_dependencies_are_never_mutated() {
    // `ext` is structured but no member; `a` is a member but bare; `b` is
    // a member but pins nothing.  None of the three may move or be
    // reported; only the package version itself mismatches.
    let text = "[package]\nname = \"c\"\nversion = \"0.1.0\"\n\n[dependencies]\next = { version = \"9.9.9\" }\na = \"0.1.0\"\nb = { path = \"../b\" }\n";
    let after = "[package]\nname = \"c\"\nversion = \"0.2.0\"\n\n[dependencies]\next = { version = \"9.9.9\" }\na = \"0.1.0\"\nb = { path = \"../b\" }\n";
    let members = vec!["a".to_string(), "b".to_string(), "c".to_string()];
    let out = process_member(&text.to_string(), &members, &"0.2.0".to_string(), true).unwrap();
    assert_eq!(out.notes.len(), 1);
    assert!(out.notes[0].dep.is_none());
    assert_eq!(out.updated_text.as_deref(), Some(after));
}

#[test]
fn dependency_filtering_holds_at_the_model_level() {
    let model = MemberModel {
        version: VersionValue::Literal("0.2.0".to_string()),
        deps: vec![
            DepEntry { name: "ext".to_string(), value: DepValue::Structured(Some(VersionValue::Literal("9.9.9".to_string()))) },
            DepEntry { name: "a".to_string(), value: DepValue::Bare },
        ],
    };
    let members = vec!["a".to_string()];
    let sync = sync_member(&model, &members, &"0.2.0".to_string(), true).unwrap();
    assert!(!sync.mismatch);
    assert!(sync.notes.is_empty());
    assert!(matches!(&sync.model.deps[0].value,
        DepValue::Structured(Some(VersionValue::Literal(s))) if s == "9.9.9"));
    assert!(matches!(&sync.model.deps[1].value, DepValue::Bare));
}

#[test]
fn inheritance_marker_is_left_untouched() {
    // Dotted form.
    let dotted = "[package]\nname = \"a\"\nversion.workspace = true\n";
    let members = vec!["a".to_string()];
    let out = process_member(&dotted.to_string(), &members, &"0.2.0".to_string(), true).unwrap();
    assert!(!out.mismatch);
    assert!(!out.changed);
    assert!(out.updated_text.is_none());

    // Inline form.
    let inline = "[package]\nname = \"a\"\nversion = { workspace = true }\n";
    let out = process_member(&inline.to_string(), &members, &"0.2.0".to_string(), true).unwrap();
    assert!(!out.mismatch);
    assert!(out.updated_text.is_none());
}

#[test]
fn inherited_dependency_pin_is_left_untouched() {
    let text = "[package]\nname = \"b\"\nversion = \"0.2.0\"\n\n[dependencies]\na = { workspace = true, version = { workspace = true } }\n";
    let members = vec!["a".to_string(), "b".to_string()];
    let out = process_member(&text.to_string(), &members, &"0.2.0".to_string(), true).unwrap();
    assert!(!out.mismatch);
    assert!(out.updated_text.is_none());
}

#[test]
fn leading_v_is_stripped_exactly_once() {
    let with_v = Args { cmd: SubCommand::Update { newver: "v1.2.3".to_string() }, quiet: false };
    let plain = Args { cmd: SubCommand::Check { newver: "1.2.3".to_string() }, quiet: true };
    assert_eq!(with_v.version(), "1.2.3");
    assert_eq!(plain.version(), "1.2.3");
    let doubled = Args { cmd: SubCommand::Update { newver: "vv1".to_string() }, quiet: false };
    assert_eq!(doubled.version(), "v1");
    let empty = Args { cmd: SubCommand::Update { newver: "".to_string() }, quiet: false };
    assert_eq!(empty.version(), "");
}

#[test]
fn prefixed_and_plain_targets_behave_identically() {
    let with_v = Args { cmd: SubCommand::Update { newver: "v0.2.0".to_string() }, quiet: false };
    let plain = Args { cmd: SubCommand::Update { newver: "0.2.0".to_string() }, quiet: false };
    let text = "[package]\nname = \"a\"\nversion = \"0.1.0\"\n".to_string();
    let members = vec!["a".to_string()];
    let one = process_member(&text, &members, &with_v.version().to_string(), with_v.write()).unwrap();
    let two = process_member(&text, &members, &plain.version().to_string(), plain.write()).unwrap();
    assert_eq!(one.updated_text, two.updated_text);
    assert_eq!(one.mismatch, two.mismatch);
}

#[test]
fn subcommand_mode_flags() {
    let up = Args { cmd: SubCommand::Update { newver: "1".to_string() }, quiet: false };
    assert!(up.write());
    assert!(!up.check());
    let ck = Args { cmd: SubCommand::Check { newver: "1".to_string() }, quiet: false };
    assert!(!ck.write());
    assert!(ck.check());
    assert_eq!(ck.cmd.version(), "1");
}

#[test]
fn root_without_shared_version_lets_markers_pass() {
    // The root declares no shared version; a member that inherits is still
    // treated as satisfied (the documented, deliberately permissive case).
    let root = process_root(&"[workspace]\nmembers = [\"a\"]\n".to_string(), &"0.2.0".to_string(), true).unwrap();
    assert!(!root.shared_declared);
    let member = "[package]\nname = \"a\"\nversion.workspace = true\n";
    let out = process_member(&member.to_string(), &root.model.members, &"0.2.0".to_string(), true).unwrap();
    assert!(!out.mismatch);
}

#[test]
fn marker_must_be_boolean_true() {
    // `workspace = false` and a string "true" are no inheritance markers:
    // such a version field is neither string nor marker, a schema error.
    let members = vec!["a".to_string()];
    let false_marker = "[package]\nname = \"a\"\nversion.workspace = false\n";
    let r = process_member(&false_marker.to_string(), &members, &"0.2.0".to_string(), true);
    assert!(r.is_err());
    let string_marker = "[package]\nname = \"a\"\nversion.workspace = \"true\"\n";
    let r = process_member(&string_marker.to_string(), &members, &"0.2.0".to_string(), true);
    assert!(r.is_err());
}

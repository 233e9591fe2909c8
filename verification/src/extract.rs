//! Reading a manifest's version-bearing locations into the library's own
//! model: classifying each located value as a literal string, an
//! inheritance marker, or a schema violation, and collecting a member's
//! dependency entries.
//!
//! Each reader's contract equates what it built with a spec-level
//! projection of the document, written over the names the trusted layer
//! gives to `toml_edit`'s getters; the top-level passes then speak of the
//! manifest text through these projections.

use vstd::prelude::*;
use crate::errors::SyncError;
use crate::field::{VersionValue, VersionShape};
use crate::member::{DepEntry, DepShape, DepValue, DepValueShape, MemberModel};
use crate::toml_doc::{
    bool_of_item, bool_of_value, doc_entry_of, doc_get, inline_entry_of, inline_get,
    inline_of_item, inline_of_value, item_as_bool, item_as_inline_table, item_as_table,
    item_as_value, item_entry_of, item_get, str_of_value, table_entry_of, table_get, table_keys,
    table_keys_of, table_of_item, value_as_bool, value_as_inline_table, value_as_str,
    value_of_item,
};

verus! {

/// A TOML value is the inline form of the inheritance marker when it is an
/// inline table whose `workspace` key is boolean true.
pub open spec fn value_marker_spec(v: toml_edit::Value) -> bool {
    match inline_of_value(v) {
        Some(t) => match inline_entry_of(t, "workspace"@) {
            Some(w) => bool_of_value(w) == Some(true),
            None => false,
        },
        None => false,
    }
}

/// A TOML table is the dotted form of the inheritance marker when its
/// `workspace` key is boolean true.
pub open spec fn table_marker_spec(t: toml_edit::Table) -> bool {
    match table_entry_of(t, "workspace"@) {
        Some(i) => bool_of_item(i) == Some(true),
        None => false,
    }
}

/// The shape of a version-bearing TOML value: a string is a literal, an
/// inline table carrying `workspace = true` is an inheritance marker,
/// anything else violates the schema.
pub open spec fn shape_of_value(v: toml_edit::Value) -> VersionShape {
    match str_of_value(v) {
        Some(s) => VersionShape::Literal(s),
        None => if value_marker_spec(v) {
            VersionShape::Inherit
        } else {
            VersionShape::Invalid
        },
    }
}

/// The shape of a version-bearing item: a value is classified as such, and
/// a (dotted) table carrying `workspace = true` is an inheritance marker.
pub open spec fn shape_of_item(i: toml_edit::Item) -> VersionShape {
    match value_of_item(i) {
        Some(v) => shape_of_value(v),
        None => match table_of_item(i) {
            Some(t) => if table_marker_spec(t) {
                VersionShape::Inherit
            } else {
                VersionShape::Invalid
            },
            None => VersionShape::Invalid,
        },
    }
}

/// The shape of one dependency entry's value: anything that is not an
/// inline table is bare; an inline table may pin a version.
pub open spec fn dep_shape_of(i: toml_edit::Item) -> DepValueShape {
    match inline_of_item(i) {
        Some(t) => DepValueShape::Structured(
            match inline_entry_of(t, "version"@) {
                Some(v) => Some(shape_of_value(v)),
                None => None,
            },
        ),
        None => DepValueShape::Bare,
    }
}

/// The member's version item: `package.version`, when both are present.
pub open spec fn member_version_item(d: toml_edit::DocumentMut) -> Option<toml_edit::Item> {
    match doc_entry_of(d, "package"@) {
        Some(p) => item_entry_of(p, "version"@),
        None => None,
    }
}

/// The shape of the member's version field, when the field is present.
pub open spec fn member_version_shape(d: toml_edit::DocumentMut) -> Option<VersionShape> {
    match member_version_item(d) {
        Some(i) => Some(shape_of_item(i)),
        None => None,
    }
}

/// The member's dependency table, when `dependencies` is present and a table.
pub open spec fn deps_table_of(d: toml_edit::DocumentMut) -> Option<toml_edit::Table> {
    match doc_entry_of(d, "dependencies"@) {
        Some(i) => table_of_item(i),
        None => None,
    }
}

/// The member's dependency entries in document order; empty when the
/// document has no dependency table.
pub open spec fn member_deps_shape(d: toml_edit::DocumentMut) -> Seq<DepShape> {
    match deps_table_of(d) {
        None => Seq::empty(),
        Some(t) => table_keys_of(t).map_values(
            |k: Seq<char>| DepShape {
                name: k,
                value: match table_entry_of(t, k) {
                    Some(i) => dep_shape_of(i),
                    None => DepValueShape::Bare,
                },
            },
        ),
    }
}

/// Returns true if the provided table has a `workspace = true` entry, the
/// dotted form of the inheritance marker (`version.workspace = true`).
pub(crate) fn is_workspace_true(tbl: &toml_edit::Table) -> (r: bool)
    ensures
        r == table_marker_spec(*tbl),
{
    match table_get(tbl, "workspace") {
        Some(item) => match item_as_bool(item) {
            Some(b) => b,
            None => false,
        },
        None => false,
    }
}

/// True when the value is the inline form of the inheritance marker:
/// `{ workspace = true }`.
fn value_is_marker(v: &toml_edit::Value) -> (r: bool)
    ensures
        r == value_marker_spec(*v),
{
    match value_as_inline_table(v) {
        Some(t) => match inline_get(t, "workspace") {
            Some(w) => match value_as_bool(w) {
                Some(b) => b,
                None => false,
            },
            None => false,
        },
        None => false,
    }
}

/// Classify a version-bearing TOML value: a string is a literal, an inline
/// table carrying `workspace = true` is an inheritance marker, anything
/// else violates the schema.
pub(crate) fn classify_value(v: &toml_edit::Value) -> (r: VersionValue)
    ensures
        r@ == shape_of_value(*v),
{
    match value_as_str(v) {
        Some(s) => VersionValue::Literal(s),
        None => {
            if value_is_marker(v) {
                VersionValue::Inherit
            } else {
                VersionValue::Invalid
            }
        },
    }
}

/// Classify a version-bearing item: a value is classified as such, and a
/// (dotted) table carrying `workspace = true` is an inheritance marker.
pub(crate) fn classify_item(item: &toml_edit::Item) -> (r: VersionValue)
    ensures
        r@ == shape_of_item(*item),
{
    match item_as_value(item) {
        Some(v) => classify_value(v),
        None => match item_as_table(item) {
            Some(t) => {
                if is_workspace_true(t) {
                    VersionValue::Inherit
                } else {
                    VersionValue::Invalid
                }
            },
            None => VersionValue::Invalid,
        },
    }
}

/// Classify one dependency entry's value: anything that is not an inline
/// table is bare and never touched; an inline table may pin a version.
fn classify_dep_value(item: &toml_edit::Item) -> (r: DepValue)
    ensures
        r@ == dep_shape_of(*item),
{
    match item_as_inline_table(item) {
        None => DepValue::Bare,
        Some(t) => match inline_get(t, "version") {
            None => DepValue::Structured(None),
            Some(v) => DepValue::Structured(Some(classify_value(v))),
        },
    }
}

/// Read one member manifest into the library's model: its `package.version`
/// field (required) and its dependency entries, in document order.
pub(crate) fn read_member_model(doc: &toml_edit::DocumentMut) -> (r: Result<MemberModel, SyncError>)
    ensures
        r is Ok <==> member_version_shape(*doc) is Some,
        (r matches Ok(m) ==> {
            &&& Some(m@.version) == member_version_shape(*doc)
            &&& m@.deps == member_deps_shape(*doc)
        }),
        (r matches Err(e) ==> match e {
            SyncError::MissingSection { section } => section@ == "package"@ && doc_entry_of(
                *doc,
                "package"@,
            ) is None,
            SyncError::MissingField { field } => field@ == "version"@ && doc_entry_of(
                *doc,
                "package"@,
            ) is Some && member_version_item(*doc) is None,
            _ => false,
        }),
{
    let package = match doc_get(doc, "package") {
        Some(p) => p,
        None => {
            return Err(SyncError::MissingSection { section: "package".to_owned() });
        },
    };
    let version_item = match item_get(package, "version") {
        Some(i) => i,
        None => {
            return Err(SyncError::MissingField { field: "version".to_owned() });
        },
    };
    let version = classify_item(version_item);
    let mut deps: Vec<DepEntry> = Vec::new();
    if let Some(deps_item) = doc_get(doc, "dependencies") {
        if let Some(t) = item_as_table(deps_item) {
            let keys = table_keys(t);
            let mut i: usize = 0;
            while i < keys.len()
                invariant
                    i <= keys.len(),
                    keys@.map_values(|s: String| s@) == table_keys_of(*t),
                    deps_table_of(*doc) == Some(*t),
                    deps@.len() == i,
                    forall|j: int| 0 <= j < i ==> deps@.map_values(|d2: DepEntry| d2@)[j]
                        == member_deps_shape(*doc)[j],
                decreases keys.len() - i,
            {
                let key = &keys[i];
                match table_get(t, key.as_str()) {
                    Some(item) => {
                        let value = classify_dep_value(item);
                        deps.push(DepEntry { name: key.clone(), value });
                        proof {
                            let ks = keys@.map_values(|s: String| s@);
                            assert(ks[i as int] == key@);
                            assert(member_deps_shape(*doc)[i as int] == DepShape {
                                name: key@,
                                value: match table_entry_of(*t, key@) {
                                    Some(it) => dep_shape_of(it),
                                    None => DepValueShape::Bare,
                                },
                            });
                        }
                    },
                    None => {
                        proof {
                            let ks = keys@.map_values(|s: String| s@);
                            assert(ks[i as int] == key@);
                            assert(ks.contains(key@));
                            assert(false);
                        }
                    },
                }
                i += 1;
            }
            proof {
                assert(deps@.map_values(|d2: DepEntry| d2@) =~= member_deps_shape(*doc));
            }
        }
    }
    let model = MemberModel { version, deps };
    proof {
        assert(model@.deps =~= member_deps_shape(*doc));
    }
    Ok(model)
}

/// Every structured, version-pinning dependency entry of a document has a
/// scalar in place for `set_dep_version` to overwrite.
pub proof fn lemma_structured_dep_slot(d: toml_edit::DocumentMut, i: int)
    requires
        0 <= i < member_deps_shape(d).len(),
        crate::member::dep_version(member_deps_shape(d)[i]) is Some,
    ensures
        crate::toml_doc::dep_version_slot(d, member_deps_shape(d)[i].name),
{
    match deps_table_of(d) {
        None => {
            assert(member_deps_shape(d).len() == 0);
        },
        Some(t) => {
            let k = table_keys_of(t)[i];
            assert(member_deps_shape(d)[i].name == k);
            match table_entry_of(t, k) {
                Some(it) => {
                    assert(member_deps_shape(d)[i].value == dep_shape_of(it));
                },
                None => {
                    assert(member_deps_shape(d)[i].value == DepValueShape::Bare);
                },
            }
        },
    }
}

/// A member whose version field is a literal string has a scalar in place
/// for `set_member_version` to overwrite.
pub proof fn lemma_literal_version_slot(d: toml_edit::DocumentMut)
    requires
        member_version_shape(d) matches Some(v) && v is Literal,
    ensures
        crate::toml_doc::member_version_slot(d),
{
}

} // verus!

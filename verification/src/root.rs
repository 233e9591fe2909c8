//! The workspace root: its membership list and its optional shared
//! version, and one synchronization pass over the root manifest.

use vstd::prelude::*;
use crate::errors::SyncError;
use crate::extract::{classify_item, shape_of_item};
use crate::field::{VersionValue, VersionShape, shape_after};
use crate::member::{Note, literal_of};
use crate::toml_doc::{
    array_get, array_len, array_len_of, array_of_item, array_value_of, doc_entry_of, doc_get,
    doc_of_text, doc_to_string, item_as_array, item_entry_of, item_get, parse_document,
    root_version_set, root_version_slot, set_root_version, str_of_value, text_of_doc,
    toml_error_message, value_as_str,
};

verus! {

/// What this tool reads of the root manifest: the optional shared version
/// under `workspace.package`, and the declared members, in document order.
#[derive(Debug)]
pub struct RootModel {
    pub shared: Option<VersionValue>,
    pub members: Vec<String>,
}

/// The mathematical shape of a [`RootModel`].
pub struct RootShape {
    pub shared: Option<VersionShape>,
    pub members: Seq<Seq<char>>,
}

impl View for RootModel {
    type V = RootShape;

    open spec fn view(&self) -> RootShape {
        RootShape {
            shared: match &self.shared {
                Some(v) => Some(v@),
                None => None,
            },
            members: self.members@.map_values(|s: String| s@),
        }
    }
}

/// The root declares a shared version when the field is present and is a
/// string.
pub open spec fn root_declared(r: RootShape) -> bool {
    r.shared matches Some(VersionShape::Literal(_))
}

/// A root passes the schema when its shared version field, if present, is
/// a string: an inheritance marker is meaningless at the root and is
/// rejected like any other non-string shape.
pub open spec fn root_valid(r: RootShape) -> bool {
    match r.shared {
        None => true,
        Some(v) => v is Literal,
    }
}

/// The root disagrees with the target when it declares a shared version
/// other than the target.
pub open spec fn root_mismatch(r: RootShape, t: Seq<char>) -> bool {
    match r.shared {
        Some(VersionShape::Literal(s)) => s != t,
        _ => false,
    }
}

/// What the root becomes after one pass.
pub open spec fn root_after(r: RootShape, t: Seq<char>, write: bool) -> RootShape {
    RootShape {
        shared: match r.shared {
            Some(v) => Some(shape_after(v, t, write)),
            None => None,
        },
        members: r.members,
    }
}

/// The root document's `[workspace]` item.
pub open spec fn workspace_item_of(d: toml_edit::DocumentMut) -> Option<toml_edit::Item> {
    doc_entry_of(d, "workspace"@)
}

/// The root document's members array: `workspace.members`, when present
/// and an array.
pub open spec fn root_members_array(d: toml_edit::DocumentMut) -> Option<toml_edit::Array> {
    match workspace_item_of(d) {
        Some(ws) => match item_entry_of(ws, "members"@) {
            Some(mi) => array_of_item(mi),
            None => None,
        },
        None => None,
    }
}

/// The shape of the root's shared version field,
/// `workspace.package.version`, when the whole path is present.
pub open spec fn root_shared_shape(d: toml_edit::DocumentMut) -> Option<VersionShape> {
    match workspace_item_of(d) {
        Some(ws) => match item_entry_of(ws, "package"@) {
            Some(p) => match item_entry_of(p, "version"@) {
                Some(vi) => Some(shape_of_item(vi)),
                None => None,
            },
            None => None,
        },
        None => None,
    }
}

/// The member name an array holds at an index, when that element is a string.
pub open spec fn member_name_at(a: toml_edit::Array, i: int) -> Option<Seq<char>> {
    match array_value_of(a, i) {
        Some(v) => str_of_value(v),
        None => None,
    }
}

/// Every element of the members array is a string.
pub open spec fn members_all_strings(a: toml_edit::Array) -> bool {
    forall|i: int| 0 <= i < array_len_of(a) ==> (#[trigger] member_name_at(a, i)) is Some
}

/// The member names an array declares, in document order.
pub open spec fn member_names_of(a: toml_edit::Array) -> Seq<Seq<char>> {
    Seq::new(
        array_len_of(a),
        |i: int| match member_name_at(a, i) {
            Some(s) => s,
            None => Seq::empty(),
        },
    )
}

/// The root manifest text meets the schema: it parses, holds a
/// `[workspace]` section with a `members` array of strings, and its shared
/// version, if any, is a string.
pub open spec fn root_ok_of(s: Seq<char>) -> bool {
    match doc_of_text(s) {
        None => false,
        Some(d) => match workspace_item_of(d) {
            None => false,
            Some(ws) => match item_entry_of(ws, "members"@) {
                None => false,
                Some(mi) => match array_of_item(mi) {
                    None => false,
                    Some(a) => members_all_strings(a) && (match root_shared_shape(d) {
                        None => true,
                        Some(v) => v is Literal,
                    }),
                },
            },
        },
    }
}

/// The outcome of one pass over the root manifest.
#[derive(Debug)]
pub struct RootOutcome {
    /// The root as read, before any update.
    pub model: RootModel,
    /// Whether the root declares a shared version, which lets members
    /// inherit theirs.
    pub shared_declared: bool,
    /// Whether the shared version disagreed with the target.
    pub mismatch: bool,
    /// Whether the manifest was rewritten (write mode and a mismatch).
    pub changed: bool,
    /// The notice for a mismatched shared version, carrying its old value.
    pub note: Option<Note>,
    /// The manifest's new text, exactly when it changed.
    pub updated_text: Option<String>,
}

/// One synchronization pass over the root manifest.
///
/// Reads the membership list and the optional shared version, checks that
/// version against the target, and in write mode rewrites it in place.
/// Succeeds exactly when the text meets the root schema; the model it
/// returns is the document's own content, and the rewritten text is the
/// document with the one shared-version scalar replaced.
pub fn process_root(text: &String, target: &String, write: bool) -> (r: Result<RootOutcome, SyncError>)
    ensures
        r is Ok <==> root_ok_of(text@),
        (r matches Ok(o) ==> {
            &&& root_valid(o.model@)
            &&& o.shared_declared == root_declared(o.model@)
            &&& o.mismatch == root_mismatch(o.model@, target@)
            &&& o.changed == (write && o.mismatch)
            &&& (o.updated_text is Some) == o.changed
            &&& (o.note is Some) == o.mismatch
            &&& (o.note matches Some(nt) ==> nt@.dep is None && o.model@.shared == Some(
                VersionShape::Literal(nt@.old),
            ))
            &&& (doc_of_text(text@) matches Some(d) ==> {
                &&& o.model@.shared == root_shared_shape(d)
                &&& (root_members_array(d) matches Some(a) ==> o.model@.members
                    == member_names_of(a))
                &&& (o.updated_text matches Some(u) ==> u@ == text_of_doc(
                    root_version_set(d, target@),
                ))
            })
        }),
        (r matches Err(e) ==> match e {
            SyncError::Parse { .. } => doc_of_text(text@) is None,
            SyncError::MissingSection { section } => section@ == "workspace"@ && (doc_of_text(
                text@,
            ) matches Some(d) && workspace_item_of(d) is None),
            SyncError::MissingField { field } => field@ == "members"@ && (doc_of_text(text@)
                matches Some(d) && workspace_item_of(d) matches Some(ws) && item_entry_of(
                ws,
                "members"@,
            ) is None),
            SyncError::SchemaMismatch { field } => (doc_of_text(text@) matches Some(d) && (
            (field@ == "members"@ && (workspace_item_of(d) matches Some(ws) && item_entry_of(
                ws,
                "members"@,
            ) matches Some(mi) && !(array_of_item(mi) matches Some(a) && members_all_strings(a))))
                || (field@ == "version"@ && !(match root_shared_shape(d) {
                None => true,
                Some(v) => v is Literal,
            })))),
        }),
{
    let mut doc = match parse_document(text.as_str()) {
        Ok(d) => d,
        Err(e) => {
            return Err(SyncError::Parse { message: toml_error_message(&e) });
        },
    };
    let ghost d0 = doc;
    let ws = match doc_get(&doc, "workspace") {
        Some(w) => w,
        None => {
            return Err(SyncError::MissingSection { section: "workspace".to_owned() });
        },
    };
    let shared: Option<VersionValue> = match item_get(ws, "package") {
        None => None,
        Some(pkg) => match item_get(pkg, "version") {
            None => None,
            Some(vi) => Some(classify_item(vi)),
        },
    };
    proof {
        assert(root_shared_shape(d0) == (match &shared {
            Some(vv) => Some(vv@),
            None => None,
        }));
    }
    let members_item = match item_get(ws, "members") {
        Some(mi) => mi,
        None => {
            return Err(SyncError::MissingField { field: "members".to_owned() });
        },
    };
    let arr = match item_as_array(members_item) {
        Some(a) => a,
        None => {
            return Err(SyncError::SchemaMismatch { field: "members".to_owned() });
        },
    };
    let n = array_len(arr);
    let mut members: Vec<String> = Vec::new();
    let mut i: usize = 0;
    while i < n
        invariant
            i <= n,
            n == array_len_of(*arr),
            members@.len() == i,
            forall|j: int| 0 <= j < i ==> member_name_at(*arr, j) == Some(
                members@.map_values(|s: String| s@)[j],
            ),
            doc_of_text(text@) == Some(d0),
            workspace_item_of(d0) == Some(*ws),
            item_entry_of(*ws, "members"@) == Some(*members_item),
            array_of_item(*members_item) == Some(*arr),
        decreases n - i,
    {
        match array_get(arr, i) {
            Some(v) => match value_as_str(v) {
                Some(s) => {
                    members.push(s);
                },
                None => {
                    proof {
                        assert(member_name_at(*arr, i as int) is None);
                        assert(!members_all_strings(*arr));
                    }
                    return Err(SyncError::SchemaMismatch { field: "members".to_owned() });
                },
            },
            None => {
                proof {
                    assert(false);
                }
            },
        }
        i += 1;
    }
    proof {
        assert(members_all_strings(*arr));
        assert(members@.map_values(|s: String| s@) =~= member_names_of(*arr));
    }
    let (shared_declared, mismatch, note): (bool, bool, Option<Note>) = match &shared {
        None => (false, false, None),
        Some(vv) => match vv {
            VersionValue::Literal(s) => {
                if s.eq(target) {
                    (true, false, None)
                } else {
                    (true, true, Some(Note { dep: None, old: s.clone() }))
                }
            },
            _ => {
                return Err(SyncError::SchemaMismatch { field: "version".to_owned() });
            },
        },
    };
    let changed = write && mismatch;
    let updated_text = if changed {
        let found = set_root_version(&mut doc, target.as_str());
        proof {
            assert(root_version_slot(d0));
            assert(found);
        }
        Some(doc_to_string(&doc))
    } else {
        None
    };
    Ok(
        RootOutcome {
            model: RootModel { shared, members },
            shared_declared,
            mismatch,
            changed,
            note,
            updated_text,
        },
    )
}

/// Law: one write pass settles the root.  After it, the shared version no
/// longer mismatches and a second write pass with the same target moves
/// nothing.
pub proof fn lemma_root_update_idempotent(r: RootShape, t: Seq<char>)
    ensures
        !root_mismatch(root_after(r, t, true), t),
        root_after(root_after(r, t, true), t, true) == root_after(r, t, true),
{
}

/// Law: a verify-only pass never moves the root.
pub proof fn lemma_root_check_never_mutates(r: RootShape, t: Seq<char>)
    ensures
        root_after(r, t, false) == r,
{
}

} // verus!

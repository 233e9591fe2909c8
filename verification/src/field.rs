//! The version field: a located value in a manifest with three possible
//! shapes, and the core comparison/update step applied to every such field.

use vstd::prelude::*;
use crate::args::strip_v;

verus! {

/// The three shapes a version-bearing location can take: a literal string,
/// an inheritance marker (`workspace = true`, meaning "use the workspace's
/// shared version"), or anything else, which violates the schema.
#[derive(Debug)]
pub enum VersionValue {
    Literal(String),
    Inherit,
    Invalid,
}

/// The mathematical shape of a [`VersionValue`].
pub enum VersionShape {
    Literal(Seq<char>),
    Inherit,
    Invalid,
}

impl View for VersionValue {
    type V = VersionShape;

    open spec fn view(&self) -> VersionShape {
        match self {
            VersionValue::Literal(s) => VersionShape::Literal(s@),
            VersionValue::Inherit => VersionShape::Inherit,
            VersionValue::Invalid => VersionShape::Invalid,
        }
    }
}

/// A field is acceptable to the schema unless it has the invalid shape.
pub open spec fn shape_valid(v: VersionShape) -> bool {
    !(v is Invalid)
}

/// A field disagrees with the target exactly when it is a literal string
/// other than the target.  An inheritance marker never counts as a
/// mismatch: when the root declares a shared version that version is
/// synchronized in the same pass, and when it declares none the marker is
/// deliberately left alone.
pub open spec fn shape_mismatch(v: VersionShape, target: Seq<char>) -> bool {
    match v {
        VersionShape::Literal(s) => s != target,
        _ => false,
    }
}

/// What a field becomes after one pass: in write mode a mismatched literal
/// is overwritten with the target, everything else is untouched.
pub open spec fn shape_after(v: VersionShape, target: Seq<char>, write: bool) -> VersionShape {
    if write && shape_mismatch(v, target) {
        VersionShape::Literal(target)
    } else {
        v
    }
}

/// The outcome of checking one version field: whether it disagreed with
/// the target, and the value the field holds once the pass is over.
#[derive(Debug)]
pub struct FieldSync {
    pub mismatch: bool,
    pub value: VersionValue,
}

/// Check and/or set the version.
///
/// Compares one version field against the canonical target.  Returns
/// `None` when the field has a shape the schema does not allow; otherwise
/// reports whether it mismatched and what it holds after the pass (the
/// target itself in write mode, its old value otherwise).
pub fn check_version(v: &VersionValue, target: &String, write: bool) -> (r: Option<FieldSync>)
    ensures
        r is Some <==> shape_valid(v@),
        r matches Some(f) ==> f.mismatch == shape_mismatch(v@, target@),
        r matches Some(f) ==> f.value@ == shape_after(v@, target@, write),
{
    match v {
        VersionValue::Literal(s) => {
            if s.eq(target) {
                Some(FieldSync { mismatch: false, value: VersionValue::Literal(s.clone()) })
            } else if write {
                Some(FieldSync { mismatch: true, value: VersionValue::Literal(target.clone()) })
            } else {
                Some(FieldSync { mismatch: true, value: VersionValue::Literal(s.clone()) })
            }
        },
        VersionValue::Inherit => Some(FieldSync { mismatch: false, value: VersionValue::Inherit }),
        VersionValue::Invalid => None,
    }
}

/// Law: updating is idempotent.  A field that one write pass has brought to
/// the target neither mismatches nor moves in a second pass with the same
/// target.
pub proof fn lemma_update_idempotent(v: VersionShape, target: Seq<char>)
    ensures
        !shape_mismatch(shape_after(v, target, true), target),
        shape_after(shape_after(v, target, true), target, true) == shape_after(v, target, true),
{
}

/// Law: a verify-only pass never moves a field.
pub proof fn lemma_check_never_mutates(v: VersionShape, target: Seq<char>)
    ensures
        shape_after(v, target, false) == v,
{
}

/// Law: a target written with a single leading 'v' and one written without
/// it canonicalize to the same version, so every comparison and update
/// treats them identically.
pub proof fn lemma_prefix_equivalence(s: Seq<char>)
    requires
        s.len() == 0 || s[0] != 'v',
    ensures
        strip_v(seq!['v'].add(s)) == strip_v(s),
{
    assert(strip_v(seq!['v'].add(s)) =~= s);
}

/// Law: inheritance short-circuits.  A field that inherits from the
/// workspace is never a mismatch and is left untouched by every pass.
pub proof fn lemma_inheritance_short_circuit(target: Seq<char>, write: bool)
    ensures
        !shape_mismatch(VersionShape::Inherit, target),
        shape_after(VersionShape::Inherit, target, write) == VersionShape::Inherit,
{
}

} // verus!

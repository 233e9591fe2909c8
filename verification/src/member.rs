//! One member package: its own version field and its dependency entries,
//! and the synchronization pass over them.
//!
//! This is the heart of the tool.  A member's version must equal the
//! target unless it inherits from the workspace; a dependency entry is
//! synchronized only when its key names a fellow member, its value is a
//! structured table, and that table pins a version.  Everything else is
//! left exactly as it was.

use vstd::prelude::*;
use crate::field::{
    VersionValue, VersionShape, check_version, shape_valid, shape_mismatch, shape_after,
};

verus! {

/// The value of one dependency entry: a bare value (the `name = "1.2.3"`
/// shorthand, or anything else that is not a structured table), or a
/// structured table that may pin a version.
#[derive(Debug)]
pub enum DepValue {
    Bare,
    Structured(Option<VersionValue>),
}

/// One entry of a member's dependency table.
#[derive(Debug)]
pub struct DepEntry {
    pub name: String,
    pub value: DepValue,
}

/// What this tool reads of one member manifest: the member's own version
/// field and its dependency entries, in document order.
#[derive(Debug)]
pub struct MemberModel {
    pub version: VersionValue,
    pub deps: Vec<DepEntry>,
}

/// The mathematical shape of a [`DepValue`].
pub enum DepValueShape {
    Bare,
    Structured(Option<VersionShape>),
}

/// The mathematical shape of a [`DepEntry`].
pub struct DepShape {
    pub name: Seq<char>,
    pub value: DepValueShape,
}

/// The mathematical shape of a [`MemberModel`].
pub struct MemberShape {
    pub version: VersionShape,
    pub deps: Seq<DepShape>,
}

impl View for DepValue {
    type V = DepValueShape;

    open spec fn view(&self) -> DepValueShape {
        match self {
            DepValue::Bare => DepValueShape::Bare,
            DepValue::Structured(ov) => DepValueShape::Structured(
                match ov {
                    Some(v) => Some(v@),
                    None => None,
                },
            ),
        }
    }
}

impl View for DepEntry {
    type V = DepShape;

    open spec fn view(&self) -> DepShape {
        DepShape { name: self.name@, value: self.value@ }
    }
}

impl View for MemberModel {
    type V = MemberShape;

    open spec fn view(&self) -> MemberShape {
        MemberShape { version: self.version@, deps: self.deps@.map_values(|d: DepEntry| d@) }
    }
}

/// The membership set: the names a dependency key is matched against.
pub open spec fn member_set(members: Seq<Seq<char>>) -> Set<Seq<char>> {
    members.to_set()
}

/// The membership set declared by a list of member identifiers.
pub open spec fn member_set_of(members: Seq<String>) -> Set<Seq<char>> {
    member_set(members.map_values(|s: String| s@))
}

/// True when `name` is one of the declared members.
pub fn is_member(members: &Vec<String>, name: &String) -> (r: bool)
    ensures
        r == member_set_of(members@).contains(name@),
{
    let mut i: usize = 0;
    while i < members.len()
        invariant
            i <= members.len(),
            forall|j: int| 0 <= j < i ==> members@[j]@ != name@,
        decreases members.len() - i,
    {
        if members[i].eq(name) {
            proof {
                let ms = members@.map_values(|s: String| s@);
                assert(ms[i as int] == name@);
                assert(ms.contains(name@));
            }
            return true;
        }
        i += 1;
    }
    proof {
        assert(!members@.map_values(|s: String| s@).contains(name@));
    }
    false
}

/// The version a dependency entry pins, if it is structured and pins one.
pub open spec fn dep_version(d: DepShape) -> Option<VersionShape> {
    match d.value {
        DepValueShape::Structured(ov) => ov,
        DepValueShape::Bare => None,
    }
}

/// A dependency entry is eligible for synchronization exactly when its key
/// is a declared member, its value is a structured table, and that table
/// pins a version.
pub open spec fn dep_eligible(d: DepShape, members: Set<Seq<char>>) -> bool {
    members.contains(d.name) && dep_version(d) is Some
}

/// An eligible dependency whose pinned version is a literal other than the
/// target.
pub open spec fn dep_mismatch(d: DepShape, members: Set<Seq<char>>, t: Seq<char>) -> bool {
    dep_eligible(d, members) && match dep_version(d) {
        Some(v) => shape_mismatch(v, t),
        None => false,
    }
}

/// An eligible dependency whose pinned version has a shape the schema does
/// not allow.
pub open spec fn dep_invalid(d: DepShape, members: Set<Seq<char>>) -> bool {
    dep_eligible(d, members) && match dep_version(d) {
        Some(v) => !shape_valid(v),
        None => false,
    }
}

/// What one dependency entry becomes after a pass: only an eligible
/// entry's pinned version moves, and only in write mode.
pub open spec fn dep_after(d: DepShape, members: Set<Seq<char>>, t: Seq<char>, write: bool) -> DepShape {
    match d.value {
        DepValueShape::Structured(ov) => match ov {
            Some(v) => if members.contains(d.name) {
                DepShape { name: d.name, value: DepValueShape::Structured(Some(shape_after(v, t, write))) }
            } else {
                d
            },
            None => d,
        },
        DepValueShape::Bare => d,
    }
}

/// A member passes the schema when its own version field is valid and no
/// eligible dependency pins an invalid version.
pub open spec fn member_valid(m: MemberShape, members: Set<Seq<char>>) -> bool {
    shape_valid(m.version) && forall|i: int|
        0 <= i < m.deps.len() ==> !dep_invalid(#[trigger] m.deps[i], members)
}

/// A member disagrees with the target when its own version does, or when
/// any eligible dependency does.
pub open spec fn member_mismatch(m: MemberShape, members: Set<Seq<char>>, t: Seq<char>) -> bool {
    shape_mismatch(m.version, t) || exists|i: int|
        0 <= i < m.deps.len() && dep_mismatch(#[trigger] m.deps[i], members, t)
}

/// What a whole member becomes after one pass.
pub open spec fn member_after(m: MemberShape, members: Set<Seq<char>>, t: Seq<char>, write: bool) -> MemberShape {
    MemberShape {
        version: shape_after(m.version, t, write),
        deps: m.deps.map_values(|d: DepShape| dep_after(d, members, t, write)),
    }
}

/// The literal a version shape holds, when it holds one.
pub open spec fn literal_of(v: VersionShape) -> Seq<char> {
    match v {
        VersionShape::Literal(s) => s,
        _ => Seq::empty(),
    }
}

/// The literal a dependency entry pins, when it pins one.
pub open spec fn dep_old(d: DepShape) -> Seq<char> {
    match dep_version(d) {
        Some(v) => literal_of(v),
        None => Seq::empty(),
    }
}

/// One mismatch notice: which field disagreed (`None` for the version
/// field itself, the dependency's name otherwise) and the value it held.
#[derive(Debug)]
pub struct Note {
    pub dep: Option<String>,
    pub old: String,
}

/// The mathematical shape of a [`Note`].
pub struct NoteShape {
    pub dep: Option<Seq<char>>,
    pub old: Seq<char>,
}

impl View for Note {
    type V = NoteShape;

    open spec fn view(&self) -> NoteShape {
        NoteShape {
            dep: match &self.dep {
                Some(s) => Some(s@),
                None => None,
            },
            old: self.old@,
        }
    }
}

/// The notices a pass over the dependency entries produces, in document
/// order: one per mismatched eligible entry.
pub open spec fn dep_notes(deps: Seq<DepShape>, members: Set<Seq<char>>, t: Seq<char>) -> Seq<NoteShape>
    decreases deps.len(),
{
    if deps.len() == 0 {
        Seq::empty()
    } else {
        dep_notes(deps.drop_last(), members, t) + if dep_mismatch(deps.last(), members, t) {
            seq![NoteShape { dep: Some(deps.last().name), old: dep_old(deps.last()) }]
        } else {
            Seq::empty()
        }
    }
}

/// The notices a pass over a whole member produces: the version field
/// first, then the dependencies in document order.
pub open spec fn member_notes(m: MemberShape, members: Set<Seq<char>>, t: Seq<char>) -> Seq<NoteShape> {
    (if shape_mismatch(m.version, t) {
        seq![NoteShape { dep: None, old: literal_of(m.version) }]
    } else {
        Seq::empty()
    }) + dep_notes(m.deps, members, t)
}

/// Why one member fails the schema.
#[derive(Debug)]
pub enum MemberIssue {
    /// The member's own version field is neither a string nor an
    /// inheritance marker.
    VersionInvalid,
    /// The named eligible dependency pins a version that is neither a
    /// string nor an inheritance marker.
    DepInvalid { name: String },
}

/// The outcome of one pass over a member: the model after the pass,
/// whether anything disagreed with the target, and one notice per
/// disagreeing field.
#[derive(Debug)]
pub struct MemberSync {
    pub model: MemberModel,
    pub mismatch: bool,
    pub notes: Vec<Note>,
}

/// A copy of a version field.
fn clone_version(v: &VersionValue) -> (r: VersionValue)
    ensures
        r@ == v@,
{
    match v {
        VersionValue::Literal(s) => VersionValue::Literal(s.clone()),
        VersionValue::Inherit => VersionValue::Inherit,
        VersionValue::Invalid => VersionValue::Invalid,
    }
}

/// One synchronization pass over one member.
///
/// Checks the member's own version field against the target, then every
/// eligible dependency entry; in write mode the mismatched fields of the
/// returned model hold the target.  Fails exactly when the member breaks
/// the schema, and names the offending field.
pub fn sync_member(m: &MemberModel, members: &Vec<String>, target: &String, write: bool) -> (r: Result<
    MemberSync,
    MemberIssue,
>)
    ensures
        r is Ok <==> member_valid(m@, member_set_of(members@)),
        (r matches Ok(s) ==> {
            &&& s.mismatch == member_mismatch(m@, member_set_of(members@), target@)
            &&& s.model@ == member_after(m@, member_set_of(members@), target@, write)
            &&& s.notes@.map_values(|n: Note| n@) == member_notes(m@, member_set_of(members@), target@)
        }),
        (r matches Err(e) ==> match e {
            MemberIssue::VersionInvalid => !shape_valid(m@.version),
            MemberIssue::DepInvalid { name } => exists|i: int|
                0 <= i < m@.deps.len() && dep_invalid(#[trigger] m@.deps[i], member_set_of(members@))
                    && m@.deps[i].name == name@,
        }),
{
    let ghost mset = member_set_of(members@);
    let own_sync = match check_version(&m.version, target, write) {
        Some(f) => f,
        None => {
            return Err(MemberIssue::VersionInvalid);
        },
    };
    let mut notes: Vec<Note> = Vec::new();
    if own_sync.mismatch {
        match &m.version {
            VersionValue::Literal(s) => {
                notes.push(Note { dep: None, old: s.clone() });
            },
            _ => {
                proof {
                    assert(false);
                }
            },
        }
    }
    let ghost own_notes = if shape_mismatch(m@.version, target@) {
        seq![NoteShape { dep: None, old: literal_of(m@.version) }]
    } else {
        Seq::<NoteShape>::empty()
    };
    proof {
        assert(notes@.map_values(|n: Note| n@) =~= own_notes + dep_notes(
            m@.deps.take(0),
            mset,
            target@,
        ));
    }

    let mut new_deps: Vec<DepEntry> = Vec::new();
    let mut dep_mis = false;
    let mut idx: usize = 0;
    while idx < m.deps.len()
        invariant
            idx <= m.deps.len(),
            m@.deps.len() == m.deps.len(),
            mset == member_set_of(members@),
            new_deps@.len() == idx,
            forall|j: int| 0 <= j < idx ==> new_deps@.map_values(|d: DepEntry| d@)[j]
                == dep_after(m@.deps[j], mset, target@, write),
            dep_mis == exists|j: int| 0 <= j < idx && dep_mismatch(#[trigger] m@.deps[j], mset, target@),
            notes@.map_values(|n: Note| n@) == own_notes + dep_notes(
                m@.deps.take(idx as int),
                mset,
                target@,
            ),
            forall|j: int| 0 <= j < idx ==> !dep_invalid(#[trigger] m@.deps[j], mset),
        decreases m.deps.len() - idx,
    {
        let d = &m.deps[idx];
        proof {
            assert(m@.deps[idx as int] == d@);
        }
        let eligible = is_member(members, &d.name);
        let ghost prev_deps = new_deps@;
        let ghost prev_notes = notes@;
        let mis: bool = match &d.value {
            DepValue::Bare => {
                new_deps.push(DepEntry { name: d.name.clone(), value: DepValue::Bare });
                false
            },
            DepValue::Structured(ov) => match ov {
                None => {
                    new_deps.push(DepEntry { name: d.name.clone(), value: DepValue::Structured(None) });
                    false
                },
                Some(vv) => {
                    if eligible {
                        match check_version(vv, target, write) {
                            None => {
                                return Err(MemberIssue::DepInvalid { name: d.name.clone() });
                            },
                            Some(f) => {
                                if f.mismatch {
                                    match vv {
                                        VersionValue::Literal(s) => {
                                            notes.push(Note { dep: Some(d.name.clone()), old: s.clone() });
                                        },
                                        _ => {
                                            proof {
                                                assert(false);
                                            }
                                        },
                                    }
                                }
                                let was_mismatch = f.mismatch;
                                new_deps.push(
                                    DepEntry { name: d.name.clone(), value: DepValue::Structured(Some(f.value)) },
                                );
                                was_mismatch
                            },
                        }
                    } else {
                        new_deps.push(
                            DepEntry { name: d.name.clone(), value: DepValue::Structured(Some(clone_version(vv))) },
                        );
                        false
                    }
                },
            },
        };
        proof {
            let vd = |d2: DepEntry| d2@;
            let vn = |n: Note| n@;
            assert(new_deps@.map_values(vd) =~= prev_deps.map_values(vd).push(
                new_deps@.last()@,
            ));
            assert(new_deps@.last()@ == dep_after(m@.deps[idx as int], mset, target@, write));
            assert(mis == dep_mismatch(m@.deps[idx as int], mset, target@));
            assert(!dep_invalid(m@.deps[idx as int], mset));
            assert(m@.deps.take(idx as int + 1).drop_last() =~= m@.deps.take(idx as int));
            assert(m@.deps.take(idx as int + 1).last() == m@.deps[idx as int]);
            if mis {
                assert(notes@.map_values(vn) =~= prev_notes.map_values(vn).push(notes@.last()@));
            }
            assert(notes@.map_values(vn) =~= own_notes + dep_notes(
                m@.deps.take(idx as int + 1),
                mset,
                target@,
            ));
        }
        dep_mis = dep_mis || mis;
        idx += 1;
    }
    proof {
        assert(m@.deps.take(m@.deps.len() as int) =~= m@.deps);
    }
    let mismatch = own_sync.mismatch || dep_mis;
    let model = MemberModel { version: own_sync.value, deps: new_deps };
    proof {
        assert(model@.deps =~= member_after(m@, mset, target@, write).deps);
        assert(model@ == member_after(m@, mset, target@, write));
    }
    Ok(MemberSync { model, mismatch, notes })
}

/// Law: dependency filtering.  An entry whose key is not a declared
/// member, or whose value is not a structured table pinning a version, is
/// never moved by any pass, and never reported.
pub proof fn lemma_dependency_filtering(d: DepShape, members: Set<Seq<char>>, t: Seq<char>, write: bool)
    requires
        !dep_eligible(d, members),
    ensures
        dep_after(d, members, t, write) == d,
        !dep_mismatch(d, members, t),
{
}

/// Law: one write pass settles a member.  After it, nothing mismatches and
/// a second write pass with the same target moves nothing.
pub proof fn lemma_member_update_idempotent(m: MemberShape, members: Set<Seq<char>>, t: Seq<char>)
    ensures
        !member_mismatch(member_after(m, members, t, true), members, t),
        member_after(member_after(m, members, t, true), members, t, true) == member_after(m, members, t, true),
{
    let a = member_after(m, members, t, true);
    assert forall|i: int| 0 <= i < a.deps.len() implies !dep_mismatch(#[trigger] a.deps[i], members, t) by {
        assert(a.deps[i] == dep_after(m.deps[i], members, t, true));
    }
    assert(member_after(a, members, t, true).deps =~= a.deps) by {
        assert forall|i: int| 0 <= i < a.deps.len() implies member_after(a, members, t, true).deps[i]
            == a.deps[i] by {
            assert(a.deps[i] == dep_after(m.deps[i], members, t, true));
        }
    }
}

/// Law: a verify-only pass never moves a member.
pub proof fn lemma_member_check_never_mutates(m: MemberShape, members: Set<Seq<char>>, t: Seq<char>)
    ensures
        member_after(m, members, t, false) == m,
{
    assert(member_after(m, members, t, false).deps =~= m.deps);
}

/// Law: the notices are the mismatches.  A pass over a member produces no
/// notice exactly when nothing in it disagrees with the target.
pub proof fn lemma_notes_iff_mismatch(m: MemberShape, members: Set<Seq<char>>, t: Seq<char>)
    ensures
        member_mismatch(m, members, t) <==> member_notes(m, members, t).len() > 0,
{
    lemma_dep_notes_iff_mismatch(m.deps, members, t);
}

/// The dependency notices are empty exactly when no dependency entry
/// mismatches.
proof fn lemma_dep_notes_iff_mismatch(deps: Seq<DepShape>, members: Set<Seq<char>>, t: Seq<char>)
    ensures
        (exists|i: int| 0 <= i < deps.len() && dep_mismatch(#[trigger] deps[i], members, t))
            <==> dep_notes(deps, members, t).len() > 0,
    decreases deps.len(),
{
    if deps.len() > 0 {
        lemma_dep_notes_iff_mismatch(deps.drop_last(), members, t);
        assert forall|i: int|
            0 <= i < deps.len() && dep_mismatch(#[trigger] deps[i], members, t) implies dep_notes(
            deps,
            members,
            t,
        ).len() > 0 by {
            if i < deps.len() - 1 {
                assert(deps.drop_last()[i] == deps[i]);
            } else {
                assert(deps.last() == deps[i]);
            }
        }
        if dep_notes(deps, members, t).len() > 0 {
            if dep_notes(deps.drop_last(), members, t).len() > 0 {
                let i = choose|i: int|
                    0 <= i < deps.drop_last().len() && dep_mismatch(
                        #[trigger] deps.drop_last()[i],
                        members,
                        t,
                    );
                assert(deps[i] == deps.drop_last()[i]);
                assert(dep_mismatch(deps[i], members, t));
            } else {
                assert(dep_mismatch(deps[deps.len() - 1], members, t));
            }
        }
    }
}

} // verus!

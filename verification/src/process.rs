//! One pass over a member manifest's text, and the per-run aggregate that
//! decides what is persisted and how the run ends.

use vstd::prelude::*;
use crate::errors::SyncError;
use crate::extract::{
    lemma_literal_version_slot, lemma_structured_dep_slot, member_deps_shape, member_version_item,
    member_version_shape, read_member_model,
};
use crate::field::{VersionValue, shape_mismatch};
use crate::member::{
    DepShape, DepValue, MemberIssue, MemberModel, MemberShape, Note, dep_mismatch, is_member,
    member_mismatch, member_notes, member_set_of, member_valid, sync_member,
};
use crate::toml_doc::{
    dep_version_set, dep_version_slot, doc_entry_of, doc_of_text, doc_to_string,
    member_version_set, parse_document, set_dep_version, set_member_version, text_of_doc,
    toml_error_message,
};

verus! {

/// The member manifest text meets the schema for the given membership set:
/// it parses, holds `package.version`, and no checked field has a shape
/// the schema refuses.
pub open spec fn member_ok_of(s: Seq<char>, mset: Set<Seq<char>>) -> bool {
    match doc_of_text(s) {
        None => false,
        Some(d) => match member_version_shape(d) {
            None => false,
            Some(v) => member_valid(MemberShape { version: v, deps: member_deps_shape(d) }, mset),
        },
    }
}

/// The document after the write pass has replaced the pin of every
/// mismatched eligible dependency entry from index `i` on.
pub open spec fn apply_dep_edits_from(
    d: toml_edit::DocumentMut,
    deps: Seq<DepShape>,
    i: int,
    mset: Set<Seq<char>>,
    t: Seq<char>,
) -> toml_edit::DocumentMut
    decreases deps.len() - i,
{
    if i < 0 || i >= deps.len() {
        d
    } else {
        apply_dep_edits_from(
            if dep_mismatch(deps[i], mset, t) {
                dep_version_set(d, deps[i].name, t)
            } else {
                d
            },
            deps,
            i + 1,
            mset,
            t,
        )
    }
}

/// The document after one write pass over a member: its own version scalar
/// is replaced first when it mismatches, then each mismatched eligible
/// dependency pin, in document order.
pub open spec fn apply_member_edits(
    d: toml_edit::DocumentMut,
    m: MemberShape,
    mset: Set<Seq<char>>,
    t: Seq<char>,
) -> toml_edit::DocumentMut {
    let d1 = if shape_mismatch(m.version, t) {
        member_version_set(d, t)
    } else {
        d
    };
    apply_dep_edits_from(d1, m.deps, 0, mset, t)
}

/// The outcome of one pass over one member manifest.
#[derive(Debug)]
pub struct MemberOutcome {
    /// The member as read, before any update.
    pub model: MemberModel,
    /// Whether any of its fields disagreed with the target.
    pub mismatch: bool,
    /// Whether the manifest was rewritten (write mode and a mismatch).
    pub changed: bool,
    /// One notice per disagreeing field, in document order.
    pub notes: Vec<Note>,
    /// The manifest's new text, exactly when it changed.
    pub updated_text: Option<String>,
}

/// One synchronization pass over one member manifest.
///
/// Reads the member's version field and dependency entries, checks them
/// against the target, and in write mode rewrites each mismatched scalar
/// in place.  Succeeds exactly when the text meets the member schema for
/// the given membership list; the model it returns is the document's own
/// content, and the rewritten text is the document with exactly the
/// mismatched scalars replaced.
pub fn process_member(text: &String, members: &Vec<String>, target: &String, write: bool) -> (r:
    Result<MemberOutcome, SyncError>)
    ensures
        r is Ok <==> member_ok_of(text@, member_set_of(members@)),
        (r matches Ok(o) ==> {
            &&& member_valid(o.model@, member_set_of(members@))
            &&& o.mismatch == member_mismatch(o.model@, member_set_of(members@), target@)
            &&& o.notes@.map_values(|n: Note| n@) == member_notes(
                o.model@,
                member_set_of(members@),
                target@,
            )
            &&& o.changed == (write && o.mismatch)
            &&& (o.updated_text is Some) == o.changed
            &&& (doc_of_text(text@) matches Some(d) ==> {
                &&& Some(o.model@.version) == member_version_shape(d)
                &&& o.model@.deps == member_deps_shape(d)
                &&& (o.updated_text matches Some(u) ==> u@ == text_of_doc(
                    apply_member_edits(d, o.model@, member_set_of(members@), target@),
                ))
            })
        }),
        (r matches Err(e) ==> match e {
            SyncError::Parse { .. } => doc_of_text(text@) is None,
            SyncError::MissingSection { section } => section@ == "package"@ && (doc_of_text(text@)
                matches Some(d) && doc_entry_of(d, "package"@) is None),
            SyncError::MissingField { field } => field@ == "version"@ && (doc_of_text(text@)
                matches Some(d) && doc_entry_of(d, "package"@) is Some && member_version_item(
                d,
            ) is None),
            SyncError::SchemaMismatch { field } => (doc_of_text(text@) matches Some(d)
                && member_version_shape(d) matches Some(v) && !member_valid(
                MemberShape { version: v, deps: member_deps_shape(d) },
                member_set_of(members@),
            ) && ((field@ == "version"@ && !crate::field::shape_valid(v)) || exists|i: int|
                0 <= i < member_deps_shape(d).len() && crate::member::dep_invalid(
                    #[trigger] member_deps_shape(d)[i],
                    member_set_of(members@),
                ) && member_deps_shape(d)[i].name == field@)),
        }),
{
    let ghost mset = member_set_of(members@);
    let mut doc = match parse_document(text.as_str()) {
        Ok(d) => d,
        Err(e) => {
            return Err(SyncError::Parse { message: toml_error_message(&e) });
        },
    };
    let ghost d0 = doc;
    let model = match read_member_model(&doc) {
        Ok(m) => m,
        Err(e) => {
            return Err(e);
        },
    };
    let sync = match sync_member(&model, members, target, write) {
        Ok(s) => s,
        Err(MemberIssue::VersionInvalid) => {
            return Err(SyncError::SchemaMismatch { field: "version".to_owned() });
        },
        Err(MemberIssue::DepInvalid { name }) => {
            proof {
                let msh = MemberShape { version: model@.version, deps: member_deps_shape(d0) };
                assert(msh == model@);
                let k = choose|i: int|
                    0 <= i < model@.deps.len() && crate::member::dep_invalid(
                        #[trigger] model@.deps[i],
                        mset,
                    ) && model@.deps[i].name == name@;
                assert(crate::member::dep_invalid(member_deps_shape(d0)[k], mset)
                    && member_deps_shape(d0)[k].name == name@);
                assert(0 <= k < member_deps_shape(d0).len());
                assert(!member_valid(msh, mset));
            }
            return Err(SyncError::SchemaMismatch { field: name });
        },
    };
    let changed = write && sync.mismatch;
    let updated_text = if changed {
        let own_mis = match &model.version {
            VersionValue::Literal(s) => !s.eq(target),
            _ => false,
        };
        proof {
            assert(own_mis == shape_mismatch(model@.version, target@));
        }
        if own_mis {
            proof {
                lemma_literal_version_slot(d0);
            }
            let found = set_member_version(&mut doc, target.as_str());
            proof {
                assert(found);
            }
        }
        let ghost d1 = if shape_mismatch(model@.version, target@) {
            member_version_set(d0, target@)
        } else {
            d0
        };
        proof {
            assert(doc == d1);
        }
        let mut i: usize = 0;
        while i < model.deps.len()
            invariant
                i <= model.deps.len(),
                model@.deps.len() == model.deps.len(),
                mset == member_set_of(members@),
                model@.deps == member_deps_shape(d0),
                apply_dep_edits_from(doc, model@.deps, i as int, mset, target@)
                    == apply_dep_edits_from(d1, model@.deps, 0, mset, target@),
                forall|nm: Seq<char>| #[trigger] dep_version_slot(doc, nm) == dep_version_slot(
                    d0,
                    nm,
                ),
            decreases model.deps.len() - i,
        {
            let dep = &model.deps[i];
            proof {
                assert(model@.deps[i as int] == dep@);
            }
            let eligible = is_member(members, &dep.name);
            let mis: bool = match &dep.value {
                DepValue::Structured(ov) => match ov {
                    Some(vv) => match vv {
                        VersionValue::Literal(s) => eligible && !s.eq(target),
                        _ => false,
                    },
                    None => false,
                },
                DepValue::Bare => false,
            };
            proof {
                assert(mis == dep_mismatch(model@.deps[i as int], mset, target@));
            }
            let ghost doc_pre = doc;
            if mis {
                proof {
                    lemma_structured_dep_slot(d0, i as int);
                }
                let found = set_dep_version(&mut doc, dep.name.as_str(), target.as_str());
                proof {
                    assert(found);
                }
            }
            proof {
                assert(apply_dep_edits_from(doc_pre, model@.deps, i as int, mset, target@)
                    == apply_dep_edits_from(doc, model@.deps, i as int + 1, mset, target@));
            }
            i += 1;
        }
        proof {
            assert(apply_dep_edits_from(doc, model@.deps, model@.deps.len() as int, mset, target@)
                == doc);
            assert(doc == apply_member_edits(d0, model@, mset, target@));
        }
        Some(doc_to_string(&doc))
    } else {
        None
    };
    Ok(MemberOutcome { model, mismatch: sync.mismatch, changed, notes: sync.notes, updated_text })
}

/// The per-run aggregate: whether the root changed, whether any member
/// changed, and whether anything at all disagreed with the target.
#[derive(Debug)]
pub struct ChangeAggregate {
    pub root_changed: bool,
    pub any_member_changed: bool,
    pub any_mismatch: bool,
}

impl ChangeAggregate {
    /// Start the aggregate from the root's outcome.
    pub fn new(root_changed: bool, root_mismatch: bool) -> (r: ChangeAggregate)
        ensures
            r.root_changed == root_changed,
            !r.any_member_changed,
            r.any_mismatch == root_mismatch,
    {
        ChangeAggregate { root_changed, any_member_changed: false, any_mismatch: root_mismatch }
    }

    /// Fold one member's outcome into the aggregate.
    pub fn record_member(&mut self, changed: bool, mismatch: bool)
        ensures
            final(self).root_changed == old(self).root_changed,
            final(self).any_member_changed == (old(self).any_member_changed || changed),
            final(self).any_mismatch == (old(self).any_mismatch || mismatch),
    {
        self.any_member_changed = self.any_member_changed || changed;
        self.any_mismatch = self.any_mismatch || mismatch;
    }

    /// A verify-only run fails exactly when something, anywhere, disagreed
    /// with the target; a write run never fails here.
    pub fn verify_failed(&self, check: bool) -> (r: bool)
        ensures
            r == (check && self.any_mismatch),
    {
        check && self.any_mismatch
    }
}

} // verus!

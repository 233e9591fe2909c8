//! The errors that abort a synchronization pass.  Every one is fatal: a
//! partially synchronized workspace is worse than an untouched one, so the
//! pass stops at the first of these.  The caller knows which manifest it
//! handed in and names that file when it reports the error.

use vstd::prelude::*;

verus! {

/// Why one manifest could not be synchronized.
#[derive(Debug)]
pub enum SyncError {
    /// The text is not valid TOML.
    Parse { message: String },
    /// A required section is missing: `[workspace]` at the root, or
    /// `[package]` in a member.
    MissingSection { section: String },
    /// A required field is missing: `members` at the root, or `version`
    /// in a member.
    MissingField { field: String },
    /// The named field is present but has a shape the schema does not
    /// allow: a version that is neither a string nor an inheritance
    /// marker, a root version that is no string, or a `members` field
    /// that is not an array of strings.
    SchemaMismatch { field: String },
}

impl SyncError {
    /// A short description of the error, for reports; the caller adds the
    /// file it belongs to.
    pub fn describe(&self) -> (r: &String)
        ensures
            r@ == self.describe_spec(),
    {
        match self {
            SyncError::Parse { message } => message,
            SyncError::MissingSection { section } => section,
            SyncError::MissingField { field } => field,
            SyncError::SchemaMismatch { field } => field,
        }
    }

    /// The text `describe` hands back: the offending field or section, or
    /// the parser's message.
    pub open spec fn describe_spec(self) -> Seq<char> {
        match self {
            SyncError::Parse { message } => message@,
            SyncError::MissingSection { section } => section@,
            SyncError::MissingField { field } => field@,
            SyncError::SchemaMismatch { field } => field@,
        }
    }
}

} // verus!

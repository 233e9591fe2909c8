//! Keep every version in a multi-package workspace in step.
//!
//! A workspace has one root manifest naming its member packages and one
//! manifest per member.  This library checks, and in write mode rewrites,
//! the root's shared version, each member's own version, and every
//! dependency pin that points at a fellow member, holding them all to a
//! single target version.  All other manifest content is left alone: the
//! manifests are edited in place through `toml_edit`, which preserves
//! formatting around the one scalar that changes.

pub mod args;
pub mod errors;
pub mod field;
pub mod extract;
pub mod member;
pub mod process;
pub mod root;
pub mod toml_doc;

pub use args::Args;
pub use args::SubCommand;
pub use errors::SyncError;
pub use field::FieldSync;
pub use field::VersionValue;
pub use field::check_version;
pub use member::DepEntry;
pub use member::DepValue;
pub use member::MemberModel;
pub use member::Note;
pub use member::sync_member;
pub use process::ChangeAggregate;
pub use process::MemberOutcome;
pub use process::process_member;
pub use root::RootModel;
pub use root::RootOutcome;
pub use root::process_root;

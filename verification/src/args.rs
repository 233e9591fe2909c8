//! One invocation's settings: which mode to run in, which version to
//! enforce, and whether to stay quiet.

use vstd::prelude::*;
use vstd::string::StrSliceExecFns;

verus! {

/// The two run modes: `Update` rewrites manifests, `Check` only reports.
#[derive(Debug)]
pub enum SubCommand {
    Update { newver: String },
    Check { newver: String },
}

impl SubCommand {
    /// The requested version exactly as the caller wrote it.
    pub open spec fn raw_version(self) -> Seq<char> {
        match self {
            SubCommand::Update { newver } => newver@,
            SubCommand::Check { newver } => newver@,
        }
    }

    /// Get the requested version, still carrying any leading 'v'.
    pub fn version(&self) -> (r: &String)
        ensures
            r@ == self.raw_version(),
    {
        match self {
            SubCommand::Update { newver } => newver,
            SubCommand::Check { newver } => newver,
        }
    }
}

/// Strip exactly one leading 'v' from a version string; never more than one.
pub open spec fn strip_v(s: Seq<char>) -> Seq<char> {
    if s.len() > 0 && s[0] == 'v' {
        s.subrange(1, s.len() as int)
    } else {
        s
    }
}

/// The settings for one synchronization pass.
#[derive(Debug)]
pub struct Args {
    pub cmd: SubCommand,
    pub quiet: bool,
}

impl Args {
    /// The canonical target version that every field is held to.
    pub open spec fn target(self) -> Seq<char> {
        strip_v(self.cmd.raw_version())
    }

    /// Get the version without any leading 'v'.
    pub fn version(&self) -> (r: &str)
        ensures
            r@ == self.target(),
    {
        let ver: &str = self.cmd.version().as_str();
        if ver.unicode_len() > 0 && ver.get_char(0) == 'v' {
            ver.substring_char(1, ver.unicode_len())
        } else {
            ver
        }
    }

    /// True in write mode: mismatched fields are rewritten and persisted.
    pub fn write(&self) -> (r: bool)
        ensures
            r == (self.cmd is Update),
    {
        match &self.cmd {
            SubCommand::Update { .. } => true,
            SubCommand::Check { .. } => false,
        }
    }

    /// True in verify-only mode: mismatches are reported, nothing is written.
    pub fn check(&self) -> (r: bool)
        ensures
            r == (self.cmd is Check),
    {
        match &self.cmd {
            SubCommand::Update { .. } => false,
            SubCommand::Check { .. } => true,
        }
    }
}

} // verus!

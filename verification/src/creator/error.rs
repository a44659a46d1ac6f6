//! The build error taxonomy: everything that aborts a build, with the
//! classes the design distinguishes — local I/O, an external command, a
//! repository operation, and structural violations reported as text.

use crate::cmd::CommandError;
use crate::ostree::OstreeError;
use vstd::prelude::*;

verus! {

/// Why a build was aborted.
#[derive(Debug, Clone, PartialEq)]
pub enum BuildError {
    /// A local filesystem operation failed; carries the error's text.
    Io(String),
    /// An external command failed.
    Command(CommandError),
    /// A repository operation failed.
    Ostree(OstreeError),
    /// A structural expectation was violated; carries the message.
    Error(String),
}

pub type BuildResult = Result<(), BuildError>;

/// The user-facing description of a build failure: the text of the
/// underlying error class.
pub open spec fn spec_build_error_message(e: &BuildError) -> Seq<char> {
    match e {
        BuildError::Io(text) => text@,
        BuildError::Command(err) => crate::cmd::spec_command_error_message(err),
        BuildError::Ostree(err) => crate::ostree::spec_ostree_error_message(err),
        BuildError::Error(text) => text@,
    }
}

impl BuildError {
    /// Renders the failure for the user, exactly as
    /// [`spec_build_error_message`] describes it.
    pub fn message(&self) -> (r: String)
        ensures
            r@ == spec_build_error_message(self),
    {
        match self {
            BuildError::Io(text) => text.clone(),
            BuildError::Command(err) => err.message(),
            BuildError::Ostree(err) => err.message(),
            BuildError::Error(text) => text.clone(),
        }
    }
}

impl From<CommandError> for BuildError {
    fn from(err: CommandError) -> (r: BuildError) {
        BuildError::Command(err)
    }
}

impl vstd::std_specs::convert::FromSpecImpl<CommandError> for BuildError {
    open spec fn obeys_from_spec() -> bool {
        true
    }

    open spec fn from_spec(err: CommandError) -> BuildError {
        BuildError::Command(err)
    }
}

impl From<OstreeError> for BuildError {
    fn from(err: OstreeError) -> (r: BuildError) {
        BuildError::Ostree(err)
    }
}

impl vstd::std_specs::convert::FromSpecImpl<OstreeError> for BuildError {
    open spec fn obeys_from_spec() -> bool {
        true
    }

    open spec fn from_spec(err: OstreeError) -> BuildError {
        BuildError::Ostree(err)
    }
}

} // verus!

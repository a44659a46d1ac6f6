//! The image creators: the manifest model, the build error taxonomy, and
//! the per-variant pipelines that turn a manifest into a concrete plan of
//! external-tool invocations.

pub mod diskcreator;
pub mod error;
pub mod livecreator;
pub mod manifest;

pub use self::diskcreator::DiskCreator;
pub use self::error::BuildError;
pub use self::error::BuildResult;
pub use self::livecreator::LiveCreator;
pub use self::manifest::ImageType;
pub use self::manifest::LiveOptions;
pub use self::manifest::Manifest;

use vstd::prelude::*;

verus! {

/// Validates the media-configuration overlay directory from what the
/// caller observed of it: it must exist, be a directory, and contain the
/// reserved marker file. A failure is reported before any workspace is
/// created.
pub fn validate_configdir(exists: bool, is_dir: bool, has_marker: bool) -> (r: Result<
    (),
    BuildError,
>)
    ensures
        exists && is_dir && has_marker ==> r == Result::<(), BuildError>::Ok(()),
        !exists ==> match r {
            Err(BuildError::Error(msg)) => msg@ == "Media configuration path does not exist"@,
            _ => false,
        },
        exists && !is_dir ==> match r {
            Err(BuildError::Error(msg)) => msg@ == "Media configuration path is not a directory"@,
            _ => false,
        },
        exists && is_dir && !has_marker ==> match r {
            Err(BuildError::Error(msg)) => msg@ == "Invalid media configuration directory"@,
            _ => false,
        },
{
    if !exists {
        Err(BuildError::Error("Media configuration path does not exist".to_owned()))
    } else if !is_dir {
        Err(BuildError::Error("Media configuration path is not a directory".to_owned()))
    } else if !has_marker {
        Err(BuildError::Error("Invalid media configuration directory".to_owned()))
    } else {
        Ok(())
    }
}

} // verus!

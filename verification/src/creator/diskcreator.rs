//! The disk-image creator. The deploy itself is an open design gap: the
//! variant validates its preconditions and reports what it would build,
//! without yet producing a disk image.

use crate::clock;
use crate::creator::error::BuildError;
use crate::creator::manifest::Manifest;
use vstd::prelude::*;
use vstd::string::StringExecFns;

verus! {

/// The configuration of one disk build, derived once from the manifest and
/// the command line.
#[derive(Debug, Clone)]
pub struct DiskCreator {
    pub workdir: String,
    pub configdir: Option<String>,
    pub filename: String,
    pub force: bool,
    pub arch: String,
}

/// How a disk creator is derived from its inputs and one timestamp.
pub open spec fn disk_creator_from_manifest(
    r: &DiskCreator,
    arch: Seq<char>,
    workdir: Seq<char>,
    configdir: Option<Seq<char>>,
    filename: Option<Seq<char>>,
    force: bool,
    m: &Manifest,
    stamp: Seq<char>,
) -> bool {
    &&& r.workdir@ == workdir
    &&& r.configdir.deep_view() == configdir
    &&& r.filename@ == match filename {
        Some(f) => f,
        None => m.osname@ + "-"@ + stamp + "-"@ + arch,
    }
    &&& r.force == force
    &&& r.arch@ == arch
}

impl DiskCreator {
    /// Derives the build configuration from the manifest, the command-line
    /// overrides and the given timestamp; without an output override the
    /// file name is `<osname>-<stamp>-<arch>`.
    pub fn with_timestamp(
        arch: &str,
        workdir: &str,
        configdir: Option<&str>,
        filename: Option<&str>,
        force: bool,
        manifest: &Manifest,
        stamp: &str,
    ) -> (r: DiskCreator)
        ensures
            disk_creator_from_manifest(
                &r,
                arch@,
                workdir@,
                configdir.deep_view(),
                filename.deep_view(),
                force,
                manifest,
                stamp@,
            ),
    {
        let name: String = match filename {
            Some(f) => f.to_owned(),
            None => {
                let mut n = manifest.osname.clone();
                n.append("-");
                n.append(stamp);
                n.append("-");
                n.append(arch);
                n
            },
        };
        let cfg: Option<String> = match configdir {
            Some(c) => Some(c.to_owned()),
            None => None,
        };
        DiskCreator {
            workdir: workdir.to_owned(),
            configdir: cfg,
            filename: name,
            force,
            arch: arch.to_owned(),
        }
    }

    /// Derives the build configuration with a timestamp taken from the
    /// clock now.
    pub fn new(
        arch: &str,
        workdir: &str,
        configdir: Option<&str>,
        filename: Option<&str>,
        force: bool,
        manifest: &Manifest,
    ) -> (r: DiskCreator)
        ensures
            exists|stamp: Seq<char>|
                disk_creator_from_manifest(
                    &r,
                    arch@,
                    workdir@,
                    configdir.deep_view(),
                    filename.deep_view(),
                    force,
                    manifest,
                    stamp,
                ),
    {
        let stamp = clock::now_stamp();
        let r = DiskCreator::with_timestamp(
            arch,
            workdir,
            configdir,
            filename,
            force,
            manifest,
            stamp.as_str(),
        );
        proof {
            assert(disk_creator_from_manifest(
                &r,
                arch@,
                workdir@,
                configdir.deep_view(),
                filename.deep_view(),
                force,
                manifest,
                stamp@,
            ));
        }
        r
    }

    /// The build's one decision so far: refuse to overwrite an existing
    /// output unless forced. The caller reports the error and performs no
    /// filesystem work when this fails.
    pub fn build(&self, output_exists: bool) -> (r: Result<(), BuildError>)
        ensures
            (!output_exists || self.force) ==> r == Result::<(), BuildError>::Ok(()),
            (output_exists && !self.force) ==> match r {
                Err(BuildError::Error(msg)) => msg@ == "File "@ + self.filename@
                    + " already exist, you can force a rebuild passing `--force`"@,
                _ => false,
            },
    {
        if output_exists && !self.force {
            let mut msg = "File ".to_owned();
            msg.append(self.filename.as_str());
            msg.append(" already exist, you can force a rebuild passing `--force`");
            Err(BuildError::Error(msg))
        } else {
            Ok(())
        }
    }
}

} // verus!

//! The loop-mounted disk image resource.
//!
//! A [`DiskImage`] binds a backing file to a mountpoint directory. The
//! library side decides what is to be done — how large the sparse file must
//! be and the exact argument vector of every mount-related command — while
//! the surrounding binary performs the filesystem work and guarantees, by
//! running the unmount vector when the value is dropped, that a mounted
//! image is released on every exit path.

use vstd::assert_seqs_equal;
use vstd::prelude::*;
use vstd::string::StringExecFns;

verus! {

/// A disk image file bound to a mountpoint.
#[derive(Debug, Clone)]
pub struct DiskImage {
    pub filename: String,
    pub mountpoint: String,
}

/// A request to allocate a sparse backing file of exactly `size` bytes.
#[derive(Debug, Clone)]
pub struct SparseFileRequest {
    pub path: String,
    pub size: u64,
}

impl DiskImage {
    /// Binds the backing file at `file_path` to the mountpoint directory at
    /// `mountpoint_path`.
    pub fn new(file_path: &str, mountpoint_path: &str) -> (r: DiskImage)
        ensures
            r.filename@ == file_path@,
            r.mountpoint@ == mountpoint_path@,
    {
        DiskImage { filename: file_path.to_owned(), mountpoint: mountpoint_path.to_owned() }
    }

    /// The allocation request for the backing file: its path and exactly
    /// `size` bytes.
    pub fn create(&self, size: u64) -> (r: SparseFileRequest)
        ensures
            r.path@ == self.filename@,
            r.size == size,
    {
        SparseFileRequest { path: self.filename.clone(), size }
    }

    /// The argument vector that formats the backing file with the
    /// filesystem kind `fs` (the formatter is `mkfs.<fs>`).
    pub fn format(&self, fs: &str) -> (r: Vec<String>)
        ensures
            r.deep_view() == seq!["mkfs."@ + fs@, self.filename@],
    {
        let mut formatter = "mkfs.".to_owned();
        formatter.append(fs);
        let mut args: Vec<String> = Vec::new();
        args.push(formatter);
        args.push(self.filename.clone());
        proof {
            assert_seqs_equal!(args.deep_view(), seq!["mkfs."@ + fs@, self.filename@]);
        }
        args
    }

    /// The argument vector that loop-mounts the backing file read-write at
    /// the mountpoint.
    pub fn mount(&self) -> (r: Vec<String>)
        ensures
            r.deep_view() == seq!["mount"@, "-n"@, self.filename@, self.mountpoint@, "-oloop"@],
    {
        let mut args: Vec<String> = Vec::new();
        args.push("mount".to_owned());
        args.push("-n".to_owned());
        args.push(self.filename.clone());
        args.push(self.mountpoint.clone());
        args.push("-oloop".to_owned());
        proof {
            assert_seqs_equal!(args.deep_view(),
                seq!["mount"@, "-n"@, self.filename@, self.mountpoint@, "-oloop"@]);
        }
        args
    }

    /// The argument vector that recursively unmounts the mountpoint; run
    /// with output suppressed, so that "not mounted" stays non-fatal.
    pub fn umount(&self) -> (r: Vec<String>)
        ensures
            r.deep_view() == seq!["umount"@, "--recursive"@, "-n"@, self.mountpoint@],
    {
        let mut args: Vec<String> = Vec::new();
        args.push("umount".to_owned());
        args.push("--recursive".to_owned());
        args.push("-n".to_owned());
        args.push(self.mountpoint.clone());
        proof {
            assert_seqs_equal!(args.deep_view(),
                seq!["umount"@, "--recursive"@, "-n"@, self.mountpoint@]);
        }
        args
    }
}

} // verus!

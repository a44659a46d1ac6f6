//! The build manifest: a validated, defaulted description of what to build.
//!
//! The surrounding binary parses the YAML file and fills absent optional
//! keys with the defaults below; the library only ever sees the finished
//! value.

use vstd::prelude::*;
use vstd::string::StringExecFns;

verus! {

/// The kind of artifact a manifest asks for.
#[derive(Debug, Clone, Copy, PartialEq, Eq, Structural)]
pub enum ImageType {
    Disk,
    Live,
}

/// The live-image options of a manifest.
#[derive(Debug, Clone)]
pub struct LiveOptions {
    pub title: String,
    pub product: String,
    pub timeout: u32,
    pub squashfs_compression: String,
}

impl Default for LiveOptions {
    /// The options used when the manifest has no `live` section at all:
    /// empty text fields and a zero timeout.
    fn default() -> (r: LiveOptions)
        ensures
            r.title@ == Seq::<char>::empty(),
            r.product@ == Seq::<char>::empty(),
            r.timeout == 0,
            r.squashfs_compression@ == Seq::<char>::empty(),
    {
        LiveOptions {
            title: String::new(),
            product: String::new(),
            timeout: 0,
            squashfs_compression: String::new(),
        }
    }
}

/// An immutable build specification. `main_ref` and every entry of `refs`
/// may carry the architecture placeholder, which the creators substitute
/// once at construction.
#[derive(Debug, Clone)]
pub struct Manifest {
    pub image_type: ImageType,
    pub size: String,
    pub selinux: bool,
    pub osname: String,
    pub main_ref: String,
    pub refs: Vec<String>,
    pub remote_url: String,
    pub extra_kargs: Vec<String>,
    pub live: LiveOptions,
}

impl Manifest {
    /// Replaces the manifest's remote with a local repository when one was
    /// forced on the command line.
    pub fn with_repo_override(self, repo: Option<&str>) -> (r: Manifest)
        ensures
            match repo {
                Some(path) => {
                    &&& r.remote_url@ == "file://"@ + path@
                    &&& r.image_type == self.image_type
                    &&& r.size == self.size
                    &&& r.selinux == self.selinux
                    &&& r.osname == self.osname
                    &&& r.main_ref == self.main_ref
                    &&& r.refs == self.refs
                    &&& r.extra_kargs == self.extra_kargs
                    &&& r.live == self.live
                },
                None => r == self,
            },
    {
        match repo {
            Some(path) => {
                let mut url = "file://".to_owned();
                url.append(path);
                Manifest { remote_url: url, ..self }
            },
            None => self,
        }
    }
}

/// The default for the manifest's `selinux` key.
pub fn default_selinux() -> (r: bool)
    ensures
        r == false,
{
    false
}

/// The default for the manifest's `size` key.
pub fn default_size() -> (r: String)
    ensures
        r@ == "4 GiB"@,
{
    "4 GiB".to_owned()
}

/// The default for the live section's `title` key.
pub fn default_live_title() -> (r: String)
    ensures
        r@ == "Linux"@,
{
    "Linux".to_owned()
}

/// The default for the live section's `product` key.
pub fn default_live_product() -> (r: String)
    ensures
        r@ == "Linux (Live)"@,
{
    "Linux (Live)".to_owned()
}

/// The default for the live section's `timeout` key, in seconds.
pub fn default_live_timeout() -> (r: u32)
    ensures
        r == 600,
{
    600
}

/// The default for the live section's `squashfs-compression` key.
pub fn default_live_squashfs_compression() -> (r: String)
    ensures
        r@ == "zstd"@,
{
    "zstd".to_owned()
}

} // verus!

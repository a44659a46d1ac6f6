//! The live-image pipeline.
//!
//! A [`LiveCreator`] is derived once from the manifest and the command-line
//! overrides and then drives the staged build. Every stage's decisions — the
//! exact argument vector of each external tool, the interpretation of each
//! listing, the kernel-argument string, the boot-menu stanzas and the output
//! paths — are functions here with exact contracts. The surrounding binary
//! sequences the stages, performs the filesystem work and process spawning,
//! and feeds each observed outcome back in.

use crate::clock;
use crate::creator::error::BuildError;
use crate::creator::manifest::Manifest;
use crate::ostree;
use crate::ostree::OstreeArchiveMode;
use crate::strutil;
use crate::templates::Template;
use vstd::prelude::*;
use vstd::string::StringExecFns;

verus! {

/// The configuration of one live build, derived once from the manifest and
/// the command line; the architecture placeholder of every refspec is
/// already substituted.
#[derive(Debug, Clone)]
pub struct LiveCreator {
    pub workdir: String,
    pub configdir: Option<String>,
    pub filename: String,
    pub volset: String,
    pub fslabel: String,
    pub live_title: String,
    pub live_product: String,
    pub live_timeout: u32,
    pub compression_args: String,
    pub extra_kargs: Vec<String>,
    pub force: bool,
    pub osname: String,
    pub arch: String,
    pub selinux: bool,
    pub repodir: String,
    pub repo_is_local: bool,
    pub remote_url: String,
    pub refspec: String,
    pub refs: Vec<String>,
}

/// The volume-set identifier of a build: OS name, timestamp and
/// architecture.
pub open spec fn spec_volset(osname: Seq<char>, stamp: Seq<char>, arch: Seq<char>) -> Seq<char> {
    osname + "-"@ + stamp + "-"@ + arch
}

/// A remote that is already a local repository: a `/`-rooted path or a
/// `file://` URL.
pub open spec fn spec_remote_is_local(remote_url: Seq<char>) -> bool {
    strutil::spec_starts_with(remote_url, "/"@) || strutil::spec_starts_with(
        remote_url,
        "file://"@,
    )
}

/// How a live creator is derived from its inputs and one timestamp.
pub open spec fn creator_from_manifest(
    r: &LiveCreator,
    arch: Seq<char>,
    workdir: Seq<char>,
    configdir: Option<Seq<char>>,
    filename: Option<Seq<char>>,
    fslabel: Option<Seq<char>>,
    force: bool,
    m: &Manifest,
    stamp: Seq<char>,
) -> bool {
    &&& r.workdir@ == workdir
    &&& r.configdir.deep_view() == configdir
    &&& r.volset@ == spec_volset(m.osname@, stamp, arch)
    &&& r.filename@ == match filename {
        Some(f) => f,
        None => spec_volset(m.osname@, stamp, arch) + ".iso"@,
    }
    &&& strutil::spec_truncated(
        match fslabel {
            Some(l) => l,
            None => spec_volset(m.osname@, stamp, arch),
        },
        r.fslabel@,
        32,
    )
    &&& r.live_title@ == m.live.title@
    &&& r.live_product@ == m.live.product@
    &&& r.live_timeout == m.live.timeout
    &&& r.compression_args@ == m.live.squashfs_compression@
    &&& r.extra_kargs.deep_view() == m.extra_kargs.deep_view()
    &&& r.force == force
    &&& r.osname@ == m.osname@
    &&& r.arch@ == arch
    &&& r.selinux == m.selinux
    &&& r.repo_is_local == spec_remote_is_local(m.remote_url@)
    &&& r.repodir@ == if spec_remote_is_local(m.remote_url@) {
        strutil::spec_replace(m.remote_url@, "file://"@, Seq::empty())
    } else {
        workdir + "/repo"@
    }
    &&& r.remote_url@ == m.remote_url@
    &&& r.refspec@ == strutil::spec_replace(m.main_ref@, "${basearch}"@, arch)
    &&& r.refs@.len() == m.refs@.len()
    &&& forall|i: int|
        0 <= i < m.refs@.len() ==> r.refs@[i]@ == strutil::spec_replace(
            m.refs@[i]@,
            "${basearch}"@,
            arch,
        )
}

impl LiveCreator {
    /// Derives the build configuration from the manifest, the command-line
    /// overrides and the given timestamp. Without an output override the
    /// file name is `<volset>.iso`; without a label override the
    /// filesystem label is the volume-set id; either way the label is cut
    /// to at most 32 bytes.
    pub fn with_timestamp(
        arch: &str,
        workdir: &str,
        configdir: Option<&str>,
        filename: Option<&str>,
        fslabel: Option<&str>,
        force: bool,
        manifest: &Manifest,
        stamp: &str,
    ) -> (r: LiveCreator)
        ensures
            creator_from_manifest(
                &r,
                arch@,
                workdir@,
                configdir.deep_view(),
                filename.deep_view(),
                fslabel.deep_view(),
                force,
                manifest,
                stamp@,
            ),
    {
        let mut volset = manifest.osname.clone();
        volset.append("-");
        volset.append(stamp);
        volset.append("-");
        volset.append(arch);

        let iso_filename: String = match filename {
            Some(f) => f.to_owned(),
            None => {
                let mut n = volset.clone();
                n.append(".iso");
                n
            },
        };
        let iso_fslabel: String = match fslabel {
            Some(l) => strutil::truncate_bytes(l, 32),
            None => strutil::truncate_bytes(volset.as_str(), 32),
        };

        let is_local = strutil::starts_with(manifest.remote_url.as_str(), "/")
            || strutil::starts_with(manifest.remote_url.as_str(), "file://");
        let repodir: String = if is_local {
            strutil::replace(manifest.remote_url.as_str(), "file://", "")
        } else {
            let mut d = workdir.to_owned();
            d.append("/repo");
            d
        };

        let refspec = strutil::replace(manifest.main_ref.as_str(), "${basearch}", arch);
        let mut resolved_refs: Vec<String> = Vec::new();
        let mut i: usize = 0;
        while i < manifest.refs.len()
            invariant
                i <= manifest.refs.len(),
                resolved_refs@.len() == i,
                forall|k: int|
                    0 <= k < i ==> resolved_refs@[k]@ == strutil::spec_replace(
                        manifest.refs@[k]@,
                        "${basearch}"@,
                        arch@,
                    ),
            decreases manifest.refs.len() - i,
        {
            resolved_refs.push(strutil::replace(manifest.refs[i].as_str(), "${basearch}", arch));
            i += 1;
        }

        let cfg: Option<String> = match configdir {
            Some(c) => Some(c.to_owned()),
            None => None,
        };

        proof {
            reveal_strlit("");
            assert(Seq::<char>::empty() =~= ""@);
        }
        LiveCreator {
            workdir: workdir.to_owned(),
            configdir: cfg,
            filename: iso_filename,
            volset,
            fslabel: iso_fslabel,
            live_title: manifest.live.title.clone(),
            live_product: manifest.live.product.clone(),
            live_timeout: manifest.live.timeout,
            compression_args: manifest.live.squashfs_compression.clone(),
            extra_kargs: manifest.extra_kargs.clone(),
            force,
            osname: manifest.osname.clone(),
            arch: arch.to_owned(),
            selinux: manifest.selinux,
            repodir,
            repo_is_local: is_local,
            remote_url: manifest.remote_url.clone(),
            refspec,
            refs: resolved_refs,
        }
    }

    /// Derives the build configuration with a timestamp taken from the
    /// clock now.
    pub fn new(
        arch: &str,
        workdir: &str,
        configdir: Option<&str>,
        filename: Option<&str>,
        fslabel: Option<&str>,
        force: bool,
        manifest: &Manifest,
    ) -> (r: LiveCreator)
        ensures
            exists|stamp: Seq<char>|
                creator_from_manifest(
                    &r,
                    arch@,
                    workdir@,
                    configdir.deep_view(),
                    filename.deep_view(),
                    fslabel.deep_view(),
                    force,
                    manifest,
                    stamp,
                ),
    {
        let stamp = clock::now_stamp();
        let r = LiveCreator::with_timestamp(
            arch,
            workdir,
            configdir,
            filename,
            fslabel,
            force,
            manifest,
            stamp.as_str(),
        );
        proof {
            assert(creator_from_manifest(
                &r,
                arch@,
                workdir@,
                configdir.deep_view(),
                filename.deep_view(),
                fslabel.deep_view(),
                force,
                manifest,
                stamp@,
            ));
        }
        r
    }

    /// The pipeline's entry decision: refuse to overwrite an existing
    /// output unless forced. The caller reports the error and creates no
    /// workspace when this fails.
    pub fn precheck(&self, output_exists: bool) -> (r: Result<(), BuildError>)
        ensures
            (!output_exists || self.force) ==> r == Result::<(), BuildError>::Ok(()),
            (output_exists && !self.force) ==> match r {
                Err(BuildError::Error(msg)) => msg@ == "File "@ + self.filename@
                    + " already exist, you can force a rebuild passing `--force`"@,
                _ => false,
            },
    {
        if output_exists && !self.force {
            let mut msg = "File ".to_owned();
            msg.append(self.filename.as_str());
            msg.append(" already exist, you can force a rebuild passing `--force`");
            Err(BuildError::Error(msg))
        } else {
            Ok(())
        }
    }

    /// The commands that bring the build's repository in sync: nothing at
    /// all for a local remote, and otherwise an archive-mode
    /// initialization, one remote registration, and one mirror pull per
    /// declared ref, in that order.
    pub fn repo_sync_commands(&self) -> (r: Vec<Vec<String>>)
        ensures
            self.repo_is_local ==> r@.len() == 0,
            !self.repo_is_local ==> r.deep_view() == seq![
                ostree::spec_init_argv(self.repodir@, OstreeArchiveMode::Archive),
                ostree::spec_remote_add_argv(self.repodir@, self.osname@, self.remote_url@),
            ] + Seq::new(
                self.refs@.len(),
                |i: int| ostree::spec_mirror_argv(self.repodir@, self.osname@, self.refs@[i]@),
            ),
    {
        let mut commands: Vec<Vec<String>> = Vec::new();
        if !self.repo_is_local {
            commands.push(ostree::init(self.repodir.as_str(), OstreeArchiveMode::Archive));
            commands.push(
                ostree::remote_add(
                    self.repodir.as_str(),
                    self.osname.as_str(),
                    self.remote_url.as_str(),
                ),
            );
            let mut i: usize = 0;
            while i < self.refs.len()
                invariant
                    i <= self.refs.len(),
                    commands@.len() == 2 + i,
                    commands.deep_view()[0] == ostree::spec_init_argv(
                        self.repodir@,
                        OstreeArchiveMode::Archive,
                    ),
                    commands.deep_view()[1] == ostree::spec_remote_add_argv(
                        self.repodir@,
                        self.osname@,
                        self.remote_url@,
                    ),
                    forall|k: int|
                        0 <= k < i ==> commands.deep_view()[2 + k] == ostree::spec_mirror_argv(
                            self.repodir@,
                            self.osname@,
                            self.refs@[k]@,
                        ),
                decreases self.refs.len() - i,
            {
                commands.push(
                    ostree::mirror(
                        self.repodir.as_str(),
                        self.osname.as_str(),
                        self.refs[i].as_str(),
                    ),
                );
                i += 1;
            }
            proof {
                assert(commands.deep_view() =~~= seq![
                    ostree::spec_init_argv(self.repodir@, OstreeArchiveMode::Archive),
                    ostree::spec_remote_add_argv(self.repodir@, self.osname@, self.remote_url@),
                ] + Seq::new(
                    self.refs@.len(),
                    |k: int| ostree::spec_mirror_argv(self.repodir@, self.osname@, self.refs@[k]@),
                ));
            }
        }
        commands
    }

    /// The command that resolves the build's refspec to the one commit
    /// identifier every later read is pinned to.
    pub fn resolve_command(&self) -> (r: Vec<String>)
        ensures
            r.deep_view() == ostree::spec_resolve_rev_argv(self.repodir@, self.refspec@),
    {
        ostree::resolve_rev(self.repodir.as_str(), self.refspec.as_str())
    }

    /// The command that lists the kernel-modules directory at the resolved
    /// commit.
    pub fn kernel_modules_list_command(&self, commit: &str) -> (r: Vec<String>)
        ensures
            r.deep_view() == ostree::spec_list_argv(self.repodir@, "/usr/lib/modules"@, commit@),
    {
        ostree::list(self.repodir.as_str(), "/usr/lib/modules", commit)
    }

    /// The command that lists the boot-asset directory at the resolved
    /// commit, for the memtest scan.
    pub fn ostree_boot_list_command(&self, commit: &str) -> (r: Vec<String>)
        ensures
            r.deep_view() == ostree::spec_list_argv(
                self.repodir@,
                "/usr/lib/ostree-boot"@,
                commit@,
            ),
    {
        ostree::list(self.repodir.as_str(), "/usr/lib/ostree-boot", commit)
    }

    /// The command that lists `/usr/bin` at the resolved commit, for the
    /// media-check probe.
    pub fn bin_list_command(&self, commit: &str) -> (r: Vec<String>)
        ensures
            r.deep_view() == ostree::spec_list_argv(self.repodir@, "/usr/bin"@, commit@),
    {
        ostree::list(self.repodir.as_str(), "/usr/bin", commit)
    }

    /// The commands that extract the kernel and initramfs images from the
    /// selected modules directory into the image directory of the ISO
    /// root.
    pub fn kernel_checkout_commands(&self, moduledir: &str, images_dir: &str, commit: &str) -> (r:
        Vec<Vec<String>>)
        ensures
            r.deep_view() == seq![
                ostree::spec_checkout_argv(
                    self.repodir@,
                    moduledir@ + "/vmlinuz"@,
                    images_dir@,
                    commit@,
                ),
                ostree::spec_checkout_argv(
                    self.repodir@,
                    moduledir@ + "/initramfs.img"@,
                    images_dir@,
                    commit@,
                ),
            ],
    {
        let mut kernel_path = moduledir.to_owned();
        kernel_path.append("/vmlinuz");
        let mut initramfs_path = moduledir.to_owned();
        initramfs_path.append("/initramfs.img");
        let mut commands: Vec<Vec<String>> = Vec::new();
        commands.push(
            ostree::checkout(self.repodir.as_str(), kernel_path.as_str(), images_dir, commit),
        );
        commands.push(
            ostree::checkout(self.repodir.as_str(), initramfs_path.as_str(), images_dir, commit),
        );
        proof {
            assert(commands.deep_view() =~~= seq![
                ostree::spec_checkout_argv(
                    self.repodir@,
                    moduledir@ + "/vmlinuz"@,
                    images_dir@,
                    commit@,
                ),
                ostree::spec_checkout_argv(
                    self.repodir@,
                    moduledir@ + "/initramfs.img"@,
                    images_dir@,
                    commit@,
                ),
            ]);
        }
        commands
    }

    /// The directories created before the root filesystem is deployed: the
    /// live payload directory, the root itself, and its repository and
    /// deploy subtrees.
    pub fn create_rootfs_dirs(&self, liveos_path: &str, rootfs_path: &str) -> (r: Vec<String>)
        ensures
            r.deep_view() == seq![
                liveos_path@,
                rootfs_path@,
                rootfs_path@ + "/ostree/repo"@,
                rootfs_path@ + "/ostree/deploy"@,
            ],
    {
        let mut repo = rootfs_path.to_owned();
        repo.append("/ostree/repo");
        let mut deploydir = rootfs_path.to_owned();
        deploydir.append("/ostree/deploy");
        let mut dirs: Vec<String> = Vec::new();
        dirs.push(liveos_path.to_owned());
        dirs.push(rootfs_path.to_owned());
        dirs.push(repo);
        dirs.push(deploydir);
        proof {
            assert(dirs.deep_view() =~~= seq![
                liveos_path@,
                rootfs_path@,
                rootfs_path@ + "/ostree/repo"@,
                rootfs_path@ + "/ostree/deploy"@,
            ]);
        }
        dirs
    }

    /// The commands that deploy the OS tree under the target root: a
    /// bare-mode repository initialization, a local pull of the resolved
    /// refs, a sysroot initialization, and the deploy itself, in that
    /// order.
    pub fn create_rootfs_commands(&self, rootfs_path: &str) -> (r: Vec<Vec<String>>)
        ensures
            r.deep_view() == seq![
                ostree::spec_init_argv(rootfs_path@ + "/ostree/repo"@, OstreeArchiveMode::Bare),
                ostree::spec_pull_local_argv(
                    self.repodir@,
                    rootfs_path@ + "/ostree/repo"@,
                    self.refs.deep_view(),
                ),
                ostree::spec_os_init_argv(self.osname@, rootfs_path@),
                ostree::spec_deploy_argv(self.osname@, self.refspec@, rootfs_path@),
            ],
    {
        let mut repo = rootfs_path.to_owned();
        repo.append("/ostree/repo");
        let mut commands: Vec<Vec<String>> = Vec::new();
        commands.push(ostree::init(repo.as_str(), OstreeArchiveMode::Bare));
        commands.push(ostree::pull_local(self.repodir.as_str(), repo.as_str(), &self.refs));
        commands.push(ostree::os_init(self.osname.as_str(), rootfs_path));
        commands.push(ostree::deploy(self.osname.as_str(), self.refspec.as_str(), rootfs_path));
        proof {
            assert(commands.deep_view() =~~= seq![
                ostree::spec_init_argv(rootfs_path@ + "/ostree/repo"@, OstreeArchiveMode::Bare),
                ostree::spec_pull_local_argv(
                    self.repodir@,
                    rootfs_path@ + "/ostree/repo"@,
                    self.refs.deep_view(),
                ),
                ostree::spec_os_init_argv(self.osname@, rootfs_path@),
                ostree::spec_deploy_argv(self.osname@, self.refspec@, rootfs_path@),
            ]);
        }
        commands
    }

    /// The `/var` subdirectories pre-created under the deployed root for
    /// later boot correctness.
    pub fn rootfs_var_dirs(&self, rootfs_path: &str) -> (r: Vec<String>)
        ensures
            r.deep_view() == seq![
                rootfs_path@ + "/ostree/deploy/"@ + self.osname@ + "/var/home"@,
                rootfs_path@ + "/ostree/deploy/"@ + self.osname@ + "/var/log/journal"@,
                rootfs_path@ + "/ostree/deploy/"@ + self.osname@ + "/var/lib/systemd"@,
            ],
    {
        let mut base = rootfs_path.to_owned();
        base.append("/ostree/deploy/");
        base.append(self.osname.as_str());
        let mut home = base.clone();
        home.append("/var/home");
        let mut journal = base.clone();
        journal.append("/var/log/journal");
        let mut systemd = base.clone();
        systemd.append("/var/lib/systemd");
        let mut dirs: Vec<String> = Vec::new();
        dirs.push(home);
        dirs.push(journal);
        dirs.push(systemd);
        proof {
            assert(dirs.deep_view() =~~= seq![
                rootfs_path@ + "/ostree/deploy/"@ + self.osname@ + "/var/home"@,
                rootfs_path@ + "/ostree/deploy/"@ + self.osname@ + "/var/log/journal"@,
                rootfs_path@ + "/ostree/deploy/"@ + self.osname@ + "/var/lib/systemd"@,
            ]);
        }
        dirs
    }

    /// The command that asks the policy for the security context of home
    /// directories; its trimmed output feeds [`Self::chcon_command`].
    pub fn matchpathcon_command(&self) -> (r: Vec<String>)
        ensures
            r.deep_view() == seq!["matchpathcon"@, "-n"@, "/home"@],
    {
        let mut args: Vec<String> = Vec::new();
        args.push("matchpathcon".to_owned());
        args.push("-n".to_owned());
        args.push("/home".to_owned());
        proof {
            assert(args.deep_view() =~~= seq!["matchpathcon"@, "-n"@, "/home"@]);
        }
        args
    }

    /// The command that applies the looked-up security context to the
    /// deployed root's home directory.
    pub fn chcon_command(&self, label: &str, rootfs_path: &str) -> (r: Vec<String>)
        ensures
            r.deep_view() == seq![
                "chcon"@,
                label@,
                rootfs_path@ + "/ostree/deploy/"@ + self.osname@ + "/var/home"@,
            ],
    {
        let mut home = rootfs_path.to_owned();
        home.append("/ostree/deploy/");
        home.append(self.osname.as_str());
        home.append("/var/home");
        let mut args: Vec<String> = Vec::new();
        args.push("chcon".to_owned());
        args.push(label.to_owned());
        args.push(home);
        proof {
            assert(args.deep_view() =~~= seq![
                "chcon"@,
                label@,
                rootfs_path@ + "/ostree/deploy/"@ + self.osname@ + "/var/home"@,
            ]);
        }
        args
    }

    /// The command that compresses the deployed root into the live payload
    /// image, with the manifest's compression arguments appended; it runs
    /// with the deployed root as its working directory.
    pub fn squashfs_command(&self, liveos_path: &str) -> (r: Vec<String>)
        ensures
            r.deep_view() == seq!["mksquashfs"@, "."@, liveos_path@ + "/squashfs.img"@]
                + strutil::spec_split(self.compression_args@, ' '),
    {
        let mut payload = liveos_path.to_owned();
        payload.append("/squashfs.img");
        let mut args: Vec<String> = Vec::new();
        args.push("mksquashfs".to_owned());
        args.push(".".to_owned());
        args.push(payload);
        let mut more = strutil::split_char(self.compression_args.as_str(), ' ');
        args.append(&mut more);
        proof {
            assert(args.deep_view() =~~= seq![
                "mksquashfs"@,
                "."@,
                liveos_path@ + "/squashfs.img"@,
            ] + strutil::spec_split(self.compression_args@, ' '));
        }
        args
    }

    /// The command that extracts the EFI payload committed under the boot
    /// assets into the given directory.
    pub fn efi_checkout_command(&self, efi_source_dir: &str, commit: &str) -> (r: Vec<String>)
        ensures
            r.deep_view() == ostree::spec_checkout_argv(
                self.repodir@,
                "/usr/lib/ostree-boot/efi/EFI"@,
                efi_source_dir@,
                commit@,
            ),
    {
        ostree::checkout(self.repodir.as_str(), "/usr/lib/ostree-boot/efi/EFI", efi_source_dir, commit)
    }

    /// The command that copies the extracted EFI payload into the mounted
    /// boot image; it runs with the payload directory as its working
    /// directory.
    pub fn efiboot_copy_command(&self, mountpoint: &str) -> (r: Vec<String>)
        ensures
            r.deep_view() == seq![
                "cp"@,
                "-R"@,
                "-L"@,
                "--preserve=timestamps"@,
                "."@,
                mountpoint@ + "/EFI"@,
            ],
    {
        let mut destdir = mountpoint.to_owned();
        destdir.append("/EFI");
        let mut args: Vec<String> = Vec::new();
        args.push("cp".to_owned());
        args.push("-R".to_owned());
        args.push("-L".to_owned());
        args.push("--preserve=timestamps".to_owned());
        args.push(".".to_owned());
        args.push(destdir);
        proof {
            assert(args.deep_view() =~~= seq![
                "cp"@,
                "-R"@,
                "-L"@,
                "--preserve=timestamps"@,
                "."@,
                mountpoint@ + "/EFI"@,
            ]);
        }
        args
    }

    /// The fixed legacy-BIOS boot files staged into the ISO's isolinux
    /// directory, each with its destination.
    pub fn copy_syslinux(&self, tmp_isolinux: &str) -> (r: Vec<FileCopy>)
        ensures
            r@.len() == 5,
            r@[0].src@ == "/usr/share/syslinux/isolinux.bin"@,
            r@[0].dst@ == tmp_isolinux@ + "/isolinux.bin"@,
            r@[1].src@ == "/usr/share/syslinux/ldlinux.c32"@,
            r@[1].dst@ == tmp_isolinux@ + "/ldlinux.c32"@,
            r@[2].src@ == "/usr/share/syslinux/libcom32.c32"@,
            r@[2].dst@ == tmp_isolinux@ + "/libcom32.c32"@,
            r@[3].src@ == "/usr/share/syslinux/libutil.c32"@,
            r@[3].dst@ == tmp_isolinux@ + "/libutil.c32"@,
            r@[4].src@ == "/usr/share/syslinux/vesamenu.c32"@,
            r@[4].dst@ == tmp_isolinux@ + "/vesamenu.c32"@,
    {
        let mut copies: Vec<FileCopy> = Vec::new();
        copies.push(
            FileCopy {
                src: "/usr/share/syslinux/isolinux.bin".to_owned(),
                dst: {
                    let mut d = tmp_isolinux.to_owned();
                    d.append("/isolinux.bin");
                    d
                },
            },
        );
        copies.push(
            FileCopy {
                src: "/usr/share/syslinux/ldlinux.c32".to_owned(),
                dst: {
                    let mut d = tmp_isolinux.to_owned();
                    d.append("/ldlinux.c32");
                    d
                },
            },
        );
        copies.push(
            FileCopy {
                src: "/usr/share/syslinux/libcom32.c32".to_owned(),
                dst: {
                    let mut d = tmp_isolinux.to_owned();
                    d.append("/libcom32.c32");
                    d
                },
            },
        );
        copies.push(
            FileCopy {
                src: "/usr/share/syslinux/libutil.c32".to_owned(),
                dst: {
                    let mut d = tmp_isolinux.to_owned();
                    d.append("/libutil.c32");
                    d
                },
            },
        );
        copies.push(
            FileCopy {
                src: "/usr/share/syslinux/vesamenu.c32".to_owned(),
                dst: {
                    let mut d = tmp_isolinux.to_owned();
                    d.append("/vesamenu.c32");
                    d
                },
            },
        );
        copies
    }

    /// The final kernel-argument string: the manifest's extra arguments
    /// with the live-mode marker and the label-carrying token appended,
    /// each only when not already present, joined by single spaces.
    pub fn compute_kargs(&self) -> (r: String)
        ensures
            r@ == spec_kargs(self.extra_kargs.deep_view(), self.fslabel@),
    {
        broadcast use vstd::std_specs::vec::vec_clone_deep_view_proof;

        let ghost extra0 = self.extra_kargs.deep_view();
        let mut kargs_list = self.extra_kargs.clone();
        proof {
            assert(kargs_list.deep_view() =~= extra0);
        }
        let ghost with_live = if extra0.contains("oic.live"@) {
            extra0
        } else {
            extra0.push("oic.live"@)
        };
        if !strutil::contains_str(&kargs_list, "oic.live") {
            kargs_list.push("oic.live".to_owned());
        }
        proof {
            assert(kargs_list.deep_view() =~~= with_live);
        }
        let mut label_token = "oic.live.label=".to_owned();
        label_token.append(self.fslabel.as_str());
        let ghost with_label = if with_live.contains("oic.live.label="@ + self.fslabel@) {
            with_live
        } else {
            with_live.push("oic.live.label="@ + self.fslabel@)
        };
        if !strutil::contains_str(&kargs_list, label_token.as_str()) {
            kargs_list.push(label_token);
        }
        proof {
            assert(kargs_list.deep_view() =~~= with_label);
        }
        let r = strutil::join(&kargs_list, " ");
        r
    }

    /// A copied overlay file's text with the two fixed placeholder tokens
    /// substituted: the filesystem label, then the computed
    /// kernel-argument string.
    pub fn substitute_placeholders(&self, contents: &str, kargs: &str) -> (r: String)
        ensures
            r@ == strutil::spec_replace(
                strutil::spec_replace(contents@, "@@FSLABEL@@"@, self.fslabel@),
                "@@KERNEL-ARGS@@"@,
                kargs@,
            ),
    {
        let labeled = strutil::replace(contents, "@@FSLABEL@@", self.fslabel.as_str());
        strutil::replace(labeled.as_str(), "@@KERNEL-ARGS@@", kargs)
    }

    /// The boot-menu context of this build: always a primary entry, a
    /// media-check entry only when the checker was found, the computed
    /// arguments as the basic-graphics fallback, and the memtest flag as
    /// observed.
    pub fn make_template(&self, kargs: &str, has_md5: bool, has_memtest: bool) -> (r: Template)
        ensures
            r.product@ == self.live_product@,
            r.title@ == self.live_title@,
            r.fslabel@ == self.fslabel@,
            r.timeout == self.live_timeout,
            r.vesa_kargs@ == kargs@,
            r.memtest == has_memtest,
            r.stanzas@.len() == (if has_md5 {
                2int
            } else {
                1int
            }),
            r.stanzas@[0].name@ == "linux"@,
            r.stanzas@[0].label@ == "^Start "@ + self.live_product@,
            r.stanzas@[0].kargs@ == kargs@,
            has_md5 ==> r.stanzas@[1].name@ == "check"@,
            has_md5 ==> r.stanzas@[1].label@ == "Test this ^media & start "@ + self.live_product@,
            has_md5 ==> r.stanzas@[1].kargs@ == kargs@ + " oic.live.check"@,
    {
        let mut t = Template::new(
            self.live_product.as_str(),
            self.live_title.as_str(),
            self.fslabel.as_str(),
            self.live_timeout,
        );
        let mut start_label = "^Start ".to_owned();
        start_label.append(self.live_product.as_str());
        t.add_stanza("linux", start_label.as_str(), kargs);
        if has_md5 {
            let mut check_label = "Test this ^media & start ".to_owned();
            check_label.append(self.live_product.as_str());
            let mut check_kargs = kargs.to_owned();
            check_kargs.append(" oic.live.check");
            t.add_stanza("check", check_label.as_str(), check_kargs.as_str());
        }
        t.set_vesa_kargs(kargs);
        t.enable_memtest(has_memtest);
        t
    }

    /// True when the build stages legacy BIOS boot files and a BIOS boot
    /// catalog: only on x86_64.
    pub fn needs_bios_boot(&self) -> (r: bool)
        ensures
            r == (self.arch@ == "x86_64"@),
    {
        strutil::str_eq(self.arch.as_str(), "x86_64")
    }

    /// True when the build creates an EFI boot image and an EFI boot
    /// catalog: on x86_64 and aarch64.
    pub fn needs_efi_boot(&self) -> (r: bool)
        ensures
            r == (self.arch@ == "x86_64"@ || self.arch@ == "aarch64"@),
    {
        strutil::str_eq(self.arch.as_str(), "x86_64") || strutil::str_eq(
            self.arch.as_str(),
            "aarch64",
        )
    }

    /// The ISO mastering command: volume id and volume-set id, Rock Ridge
    /// and Joliet extensions, the architecture's boot-catalog arguments,
    /// and the output file; it runs with the assembled ISO root as its
    /// working directory.
    pub fn geniso_command(&self, isofile: &str) -> (r: Vec<String>)
        ensures
            r.deep_view() == spec_geniso_args(self.arch@, self.fslabel@, self.volset@, isofile@),
    {
        let mut args: Vec<String> = Vec::new();
        args.push("genisoimage".to_owned());
        args.push("-verbose".to_owned());
        args.push("-V".to_owned());
        args.push(self.fslabel.clone());
        args.push("-volset".to_owned());
        args.push(self.volset.clone());
        args.push("-rational-rock".to_owned());
        args.push("-J".to_owned());
        args.push("-joliet-long".to_owned());
        let is_x86 = strutil::str_eq(self.arch.as_str(), "x86_64");
        let is_arm = strutil::str_eq(self.arch.as_str(), "aarch64");
        if is_x86 {
            args.push("-eltorito-boot".to_owned());
            args.push("isolinux/isolinux.bin".to_owned());
            args.push("-eltorito-catalog".to_owned());
            args.push("isolinux/boot.cat".to_owned());
            args.push("-no-emul-boot".to_owned());
            args.push("-boot-load-size".to_owned());
            args.push("4".to_owned());
            args.push("-boot-info-table".to_owned());
        }
        if is_x86 || is_arm {
            args.push("-eltorito-alt-boot".to_owned());
            args.push("-efi-boot".to_owned());
            args.push("images/efiboot.img".to_owned());
            args.push("-no-emul-boot".to_owned());
        }
        args.push("-o".to_owned());
        args.push(isofile.to_owned());
        args.push(".".to_owned());
        proof {
            assert(args.deep_view() =~~= spec_geniso_args(
                self.arch@,
                self.fslabel@,
                self.volset@,
                isofile@,
            ));
        }
        args
    }

    /// The post-processing commands: the MBR hybridizer on x86_64, then
    /// the checksum implanter when the media checker was found.
    pub fn post_process_commands(&self, isofile: &str, has_md5: bool) -> (r: Vec<Vec<String>>)
        ensures
            r.deep_view() == (if self.arch@ == "x86_64"@ {
                seq![seq!["isohybrid"@, isofile@]]
            } else {
                Seq::<Seq<Seq<char>>>::empty()
            }) + (if has_md5 {
                seq![seq!["implantisomd5"@, isofile@]]
            } else {
                Seq::<Seq<Seq<char>>>::empty()
            }),
    {
        let mut commands: Vec<Vec<String>> = Vec::new();
        if strutil::str_eq(self.arch.as_str(), "x86_64") {
            let mut hybrid: Vec<String> = Vec::new();
            hybrid.push("isohybrid".to_owned());
            hybrid.push(isofile.to_owned());
            commands.push(hybrid);
        }
        if has_md5 {
            let mut implant: Vec<String> = Vec::new();
            implant.push("implantisomd5".to_owned());
            implant.push(isofile.to_owned());
            commands.push(implant);
        }
        proof {
            assert(commands.deep_view() =~~= (if self.arch@ == "x86_64"@ {
                seq![seq!["isohybrid"@, isofile@]]
            } else {
                Seq::<Seq<Seq<char>>>::empty()
            }) + (if has_md5 {
                seq![seq!["implantisomd5"@, isofile@]]
            } else {
                Seq::<Seq<Seq<char>>>::empty()
            }));
        }
        commands
    }

    /// The command that moves the finished ISO from the workspace to the
    /// requested output path — a tool-level move, because the workspace
    /// may be a separately mounted volume where a rename is unavailable.
    pub fn move_command(&self, isofile: &str) -> (r: Vec<String>)
        ensures
            r.deep_view() == seq!["mv"@, "-f"@, isofile@, self.filename@],
    {
        let mut args: Vec<String> = Vec::new();
        args.push("mv".to_owned());
        args.push("-f".to_owned());
        args.push(isofile.to_owned());
        args.push(self.filename.clone());
        proof {
            assert(args.deep_view() =~~= seq!["mv"@, "-f"@, isofile@, self.filename@]);
        }
        args
    }

    /// The command that extracts a found memtest image into the image
    /// directory.
    pub fn memtest_checkout_command(&self, entry: &str, images_dir: &str, commit: &str) -> (r: Vec<
        String,
    >)
        ensures
            r.deep_view() == ostree::spec_checkout_argv(self.repodir@, entry@, images_dir@, commit@),
    {
        ostree::checkout(self.repodir.as_str(), entry, images_dir, commit)
    }

    /// Where an extracted memtest image lands and the canonical name it is
    /// renamed to.
    pub fn memtest_rename(&self, entry: &str, images_dir: &str) -> (r: (String, String))
        ensures
            r.0@ == images_dir@ + "/"@ + strutil::spec_basename(entry@),
            r.1@ == images_dir@ + "/memtest"@,
    {
        let base = strutil::basename(entry);
        let src = strutil::path_join(images_dir, base.as_str());
        let mut dst = images_dir.to_owned();
        dst.append("/memtest");
        (src, dst)
    }
}

/// One file to copy, source to destination.
#[derive(Debug, Clone)]
pub struct FileCopy {
    pub src: String,
    pub dst: String,
}

/// The stages of a live build, strictly sequential with no branching back.
#[derive(Debug, Clone, Copy, PartialEq, Eq, Structural)]
pub enum BuildStage {
    Init,
    WorkspaceReady,
    RepoSynced,
    CommitResolved,
    BootFilesExtracted,
    RootfsDeployed,
    PayloadCompressed,
    OverlayApplied,
    BootConfigRendered,
    ArchitectureAssembly,
    MediaAssembled,
    PostProcessed,
    Finalized,
}

/// The position of a stage in the pipeline's fixed order.
pub open spec fn spec_stage_index(stage: BuildStage) -> int {
    match stage {
        BuildStage::Init => 0,
        BuildStage::WorkspaceReady => 1,
        BuildStage::RepoSynced => 2,
        BuildStage::CommitResolved => 3,
        BuildStage::BootFilesExtracted => 4,
        BuildStage::RootfsDeployed => 5,
        BuildStage::PayloadCompressed => 6,
        BuildStage::OverlayApplied => 7,
        BuildStage::BootConfigRendered => 8,
        BuildStage::ArchitectureAssembly => 9,
        BuildStage::MediaAssembled => 10,
        BuildStage::PostProcessed => 11,
        BuildStage::Finalized => 12,
    }
}

impl BuildStage {
    /// The unique next stage; only the final stage has none. Every stage
    /// advances its position by exactly one, so the pipeline can neither
    /// skip a stage nor branch back.
    pub fn advance(self) -> (r: Option<BuildStage>)
        ensures
            self == BuildStage::Finalized <==> r is None,
            match r {
                Some(next) => spec_stage_index(next) == spec_stage_index(self) + 1,
                None => self == BuildStage::Finalized,
            },
    {
        match self {
            BuildStage::Init => Some(BuildStage::WorkspaceReady),
            BuildStage::WorkspaceReady => Some(BuildStage::RepoSynced),
            BuildStage::RepoSynced => Some(BuildStage::CommitResolved),
            BuildStage::CommitResolved => Some(BuildStage::BootFilesExtracted),
            BuildStage::BootFilesExtracted => Some(BuildStage::RootfsDeployed),
            BuildStage::RootfsDeployed => Some(BuildStage::PayloadCompressed),
            BuildStage::PayloadCompressed => Some(BuildStage::OverlayApplied),
            BuildStage::OverlayApplied => Some(BuildStage::BootConfigRendered),
            BuildStage::BootConfigRendered => Some(BuildStage::ArchitectureAssembly),
            BuildStage::ArchitectureAssembly => Some(BuildStage::MediaAssembled),
            BuildStage::MediaAssembled => Some(BuildStage::PostProcessed),
            BuildStage::PostProcessed => Some(BuildStage::Finalized),
            BuildStage::Finalized => None,
        }
    }

    /// The stage's name, for progress reporting.
    pub fn name(self) -> &'static str {
        match self {
            BuildStage::Init => "init",
            BuildStage::WorkspaceReady => "workspace ready",
            BuildStage::RepoSynced => "repository synced",
            BuildStage::CommitResolved => "commit resolved",
            BuildStage::BootFilesExtracted => "boot files extracted",
            BuildStage::RootfsDeployed => "root filesystem deployed",
            BuildStage::PayloadCompressed => "payload compressed",
            BuildStage::OverlayApplied => "overlay applied",
            BuildStage::BootConfigRendered => "boot configuration rendered",
            BuildStage::ArchitectureAssembly => "architecture assembly",
            BuildStage::MediaAssembled => "media assembled",
            BuildStage::PostProcessed => "post-processed",
            BuildStage::Finalized => "finalized",
        }
    }
}

/// The kernel-argument tokens of a build: the extra arguments, then the
/// live-mode marker and the label-carrying token, each appended only when
/// not already present.
pub open spec fn spec_kargs_list(extra: Seq<Seq<char>>, fslabel: Seq<char>) -> Seq<Seq<char>> {
    let live_token = "oic.live"@;
    let label_token = "oic.live.label="@ + fslabel;
    let with_live = if extra.contains(live_token) {
        extra
    } else {
        extra.push(live_token)
    };
    if with_live.contains(label_token) {
        with_live
    } else {
        with_live.push(label_token)
    }
}

/// The kernel-argument string: the tokens joined by single spaces.
pub open spec fn spec_kargs(extra: Seq<Seq<char>>, fslabel: Seq<char>) -> Seq<char> {
    strutil::spec_join(spec_kargs_list(extra, fslabel), " "@)
}

/// The ISO mastering command's arguments: the data arguments, the legacy
/// BIOS boot catalog on x86_64, the EFI alternate boot catalog on x86_64
/// and aarch64, then the output file.
pub open spec fn spec_geniso_args(
    arch: Seq<char>,
    fslabel: Seq<char>,
    volset: Seq<char>,
    isofile: Seq<char>,
) -> Seq<Seq<char>> {
    let base = seq![
        "genisoimage"@,
        "-verbose"@,
        "-V"@,
        fslabel,
        "-volset"@,
        volset,
        "-rational-rock"@,
        "-J"@,
        "-joliet-long"@,
    ];
    let bios = if arch == "x86_64"@ {
        seq![
            "-eltorito-boot"@,
            "isolinux/isolinux.bin"@,
            "-eltorito-catalog"@,
            "isolinux/boot.cat"@,
            "-no-emul-boot"@,
            "-boot-load-size"@,
            "4"@,
            "-boot-info-table"@,
        ]
    } else {
        Seq::<Seq<char>>::empty()
    };
    let efi = if arch == "x86_64"@ || arch == "aarch64"@ {
        seq!["-eltorito-alt-boot"@, "-efi-boot"@, "images/efiboot.img"@, "-no-emul-boot"@]
    } else {
        Seq::<Seq<char>>::empty()
    };
    base + bios + efi + seq!["-o"@, isofile, "."@]
}

/// The fixed locations of one build's workspace, all under its temporary
/// directory.
#[derive(Debug, Clone)]
pub struct WorkspacePaths {
    pub isoroot: String,
    pub isoimages: String,
    pub isolinux: String,
    pub efidir: String,
    pub isofile: String,
    pub liveos: String,
    pub rootfs: String,
    pub efi_source: String,
    pub efi_mount: String,
    pub efiboot_image: String,
    pub grub_config: String,
    pub isolinux_config: String,
}

/// Lays out the build workspace under the given temporary directory.
pub fn workspace_paths(tmp_dir: &str) -> (r: WorkspacePaths)
    ensures
        r.isoroot@ == tmp_dir@ + "/iso"@,
        r.isoimages@ == tmp_dir@ + "/iso/images"@,
        r.isolinux@ == tmp_dir@ + "/iso/isolinux"@,
        r.efidir@ == tmp_dir@ + "/iso/EFI/fedora"@,
        r.isofile@ == tmp_dir@ + "/output.iso"@,
        r.liveos@ == tmp_dir@ + "/iso/LiveOS"@,
        r.rootfs@ == tmp_dir@ + "/rootfs"@,
        r.efi_source@ == tmp_dir@ + "/efi"@,
        r.efi_mount@ == tmp_dir@ + "/efiboot"@,
        r.efiboot_image@ == tmp_dir@ + "/iso/images/efiboot.img"@,
        r.grub_config@ == tmp_dir@ + "/iso/EFI/fedora/grub.cfg"@,
        r.isolinux_config@ == tmp_dir@ + "/iso/isolinux/isolinux.cfg"@,
{
    let mut isoroot = tmp_dir.to_owned();
    isoroot.append("/iso");
    let mut isoimages = tmp_dir.to_owned();
    isoimages.append("/iso/images");
    let mut isolinux = tmp_dir.to_owned();
    isolinux.append("/iso/isolinux");
    let mut efidir = tmp_dir.to_owned();
    efidir.append("/iso/EFI/fedora");
    let mut isofile = tmp_dir.to_owned();
    isofile.append("/output.iso");
    let mut liveos = tmp_dir.to_owned();
    liveos.append("/iso/LiveOS");
    let mut rootfs = tmp_dir.to_owned();
    rootfs.append("/rootfs");
    let mut efi_source = tmp_dir.to_owned();
    efi_source.append("/efi");
    let mut efi_mount = tmp_dir.to_owned();
    efi_mount.append("/efiboot");
    let mut efiboot_image = tmp_dir.to_owned();
    efiboot_image.append("/iso/images/efiboot.img");
    let mut grub_config = tmp_dir.to_owned();
    grub_config.append("/iso/EFI/fedora/grub.cfg");
    let mut isolinux_config = tmp_dir.to_owned();
    isolinux_config.append("/iso/isolinux/isolinux.cfg");
    WorkspacePaths {
        isoroot,
        isoimages,
        isolinux,
        efidir,
        isofile,
        liveos,
        rootfs,
        efi_source,
        efi_mount,
        efiboot_image,
        grub_config,
        isolinux_config,
    }
}

/// For a live build without a filesystem-label override, the label is the
/// volume-set identifier truncated to at most 32 bytes, however the
/// creator was derived.
pub proof fn lemma_fslabel_defaults_to_volset(
    r: &LiveCreator,
    arch: Seq<char>,
    workdir: Seq<char>,
    configdir: Option<Seq<char>>,
    filename: Option<Seq<char>>,
    force: bool,
    m: &Manifest,
    stamp: Seq<char>,
)
    requires
        creator_from_manifest(r, arch, workdir, configdir, filename, None, force, m, stamp),
    ensures
        strutil::spec_truncated(r.volset@, r.fslabel@, 32),
        vstd::utf8::encode_utf8(r.fslabel@).len() <= 32,
{
    strutil::lemma_truncated_len(r.volset@, r.fslabel@, 32);
}

/// For every architecture other than x86_64 and aarch64, the assembled
/// media carries no El-Torito boot catalog: the mastering command is
/// exactly the twelve data-only arguments, and none of its fixed
/// arguments is a boot-catalog flag (only the label, volume-set and
/// output positions hold caller data).
pub proof fn lemma_data_only_media(
    arch: Seq<char>,
    fslabel: Seq<char>,
    volset: Seq<char>,
    isofile: Seq<char>,
)
    requires
        arch != "x86_64"@,
        arch != "aarch64"@,
    ensures
        spec_geniso_args(arch, fslabel, volset, isofile) == seq![
            "genisoimage"@,
            "-verbose"@,
            "-V"@,
            fslabel,
            "-volset"@,
            volset,
            "-rational-rock"@,
            "-J"@,
            "-joliet-long"@,
            "-o"@,
            isofile,
            "."@,
        ],
        forall|i: int|
            #![trigger spec_geniso_args(arch, fslabel, volset, isofile)[i]]
            0 <= i < 12 && i != 3 && i != 5 && i != 10 ==> {
                let arg = spec_geniso_args(arch, fslabel, volset, isofile)[i];
                arg != "-eltorito-boot"@ && arg != "-eltorito-alt-boot"@ && arg != "-efi-boot"@
                    && arg != "-eltorito-catalog"@
            },
{
    assert(spec_geniso_args(arch, fslabel, volset, isofile) =~~= seq![
        "genisoimage"@,
        "-verbose"@,
        "-V"@,
        fslabel,
        "-volset"@,
        volset,
        "-rational-rock"@,
        "-J"@,
        "-joliet-long"@,
        "-o"@,
        isofile,
        "."@,
    ]);
    reveal_strlit("genisoimage");
    reveal_strlit("-verbose");
    reveal_strlit("-V");
    reveal_strlit("-volset");
    reveal_strlit("-rational-rock");
    reveal_strlit("-J");
    reveal_strlit("-joliet-long");
    reveal_strlit("-o");
    reveal_strlit(".");
    reveal_strlit("-eltorito-boot");
    reveal_strlit("-eltorito-alt-boot");
    reveal_strlit("-efi-boot");
    reveal_strlit("-eltorito-catalog");
    let args = spec_geniso_args(arch, fslabel, volset, isofile);
    assert(args[0] == "genisoimage"@);
    assert(args[1] == "-verbose"@);
    assert(args[2] == "-V"@);
    assert(args[4] == "-volset"@);
    assert(args[6] == "-rational-rock"@);
    assert(args[7] == "-J"@);
    assert(args[8] == "-joliet-long"@);
    assert(args[9] == "-o"@);
    assert(args[11] == "."@);
    assert("-rational-rock"@[1] == 'r');
    assert("-eltorito-boot"@[1] == 'e');
}

/// True when a path relative to the overlay root is the reserved
/// documentation file that is never copied into the image.
pub fn overlay_skip(rel_path: &str) -> (r: bool)
    ensures
        r == (strutil::spec_split(rel_path@, '/')[0] == "README-devel.md"@),
{
    let parts = strutil::split_char(rel_path, '/');
    proof {
        strutil::lemma_split_len(rel_path@, '/');
        assert(parts.deep_view()[0] == strutil::spec_split(rel_path@, '/')[0]);
    }
    strutil::str_eq(parts[0].as_str(), "README-devel.md")
}

/// The stage order is a single linear chain: advancing from the first
/// stage reaches the final stage after exactly twelve steps, and the final
/// stage alone has no successor.
pub proof fn lemma_stage_chain_is_linear(stage: BuildStage)
    ensures
        0 <= spec_stage_index(stage) <= 12,
        spec_stage_index(stage) == 12 <==> stage == BuildStage::Finalized,
        spec_stage_index(stage) == 0 <==> stage == BuildStage::Init,
{
}

/// The headroom added to a directory-size estimate for the EFI boot image.
pub const EFIBOOT_HEADROOM_PERCENT: u64 = 25;

/// The sum of the listed sizes.
pub open spec fn spec_sum(sizes: Seq<u64>) -> int
    decreases sizes.len(),
{
    if sizes.len() == 0 {
        0
    } else {
        spec_sum(sizes.drop_last()) + sizes.last()
    }
}

proof fn lemma_sum_take_succ(sizes: Seq<u64>, i: int)
    requires
        0 <= i < sizes.len(),
    ensures
        spec_sum(sizes.take(i + 1)) == spec_sum(sizes.take(i)) + sizes[i],
{
    assert(sizes.take(i + 1).drop_last() =~= sizes.take(i));
}

proof fn lemma_sum_take_le(sizes: Seq<u64>, i: int)
    requires
        0 <= i <= sizes.len(),
    ensures
        spec_sum(sizes.take(i)) <= spec_sum(sizes),
    decreases sizes.len() - i,
{
    if i == sizes.len() {
        assert(sizes.take(i) =~= sizes);
    } else {
        lemma_sum_take_succ(sizes, i);
        lemma_sum_take_le(sizes, i + 1);
    }
}

/// Estimates the bytes a directory's contents need: the sum of the listed
/// file sizes, raised by the given headroom percentage (five when absent),
/// plus one; `None` when the arithmetic exceeds the `u64` range.
pub fn estimate_directory_size(sizes: &Vec<u64>, add_percent: Option<u64>) -> (r: Option<u64>)
    ensures
        ({
            let pct: int = match add_percent {
                Some(q) => q as int,
                None => 5,
            };
            let total = spec_sum(sizes@);
            if 100 + pct <= u64::MAX && total <= u64::MAX && total * (100 + pct) <= u64::MAX {
                r == Some((1 + total * (100 + pct) / 100) as u64)
            } else {
                r is None
            }
        }),
{
    let pct: u64 = match add_percent {
        Some(q) => q,
        None => 5,
    };
    let factor: u64 = match 100u64.checked_add(pct) {
        Some(f) => f,
        None => {
            return None;
        },
    };
    let mut total: u64 = 0;
    let mut i: usize = 0;
    proof {
        assert(sizes@.take(0) =~= Seq::<u64>::empty());
    }
    while i < sizes.len()
        invariant
            i <= sizes.len(),
            total == spec_sum(sizes@.take(i as int)),
            factor == 100 + pct,
        decreases sizes.len() - i,
    {
        proof {
            lemma_sum_take_succ(sizes@, i as int);
        }
        total = match total.checked_add(sizes[i]) {
            Some(t) => t,
            None => {
                proof {
                    lemma_sum_take_le(sizes@, i + 1);
                }
                return None;
            },
        };
        i += 1;
    }
    proof {
        assert(sizes@.take(sizes@.len() as int) =~= sizes@);
    }
    let scaled: u64 = match total.checked_mul(factor) {
        Some(p) => p,
        None => {
            return None;
        },
    };
    proof {
        assert(scaled / 100 < u64::MAX) by (nonlinear_arith)
            requires
                scaled <= u64::MAX,
        ;
    }
    Some(1 + scaled / 100)
}

/// An entry of the boot-asset directory that holds a memtest image: its
/// file name begins with the memtest-tool prefix.
pub open spec fn spec_is_memtest_entry(entry: Seq<char>) -> bool {
    strutil::spec_starts_with(strutil::spec_basename(entry), "memtest86+"@)
}

/// The first listed entry holding a memtest image, if any.
pub fn find_memtest(entries: &Vec<String>) -> (r: Option<String>)
    ensures
        match r {
            Some(found) => exists|i: int|
                0 <= i < entries@.len() && entries@[i]@ == found@ && spec_is_memtest_entry(found@)
                    && (forall|j: int| 0 <= j < i ==> !spec_is_memtest_entry(entries@[j]@)),
            None => forall|i: int| 0 <= i < entries@.len() ==> !spec_is_memtest_entry(entries@[i]@),
        },
{
    let mut i: usize = 0;
    while i < entries.len()
        invariant
            i <= entries.len(),
            forall|j: int| 0 <= j < i ==> !spec_is_memtest_entry(entries@[j]@),
        decreases entries.len() - i,
    {
        let base = strutil::basename(entries[i].as_str());
        if strutil::starts_with(base.as_str(), "memtest86+") {
            return Some(entries[i].clone());
        }
        i += 1;
    }
    None
}

/// True when the listed entries include the media-check tool at its fixed
/// path.
pub fn has_checkisomd5(entries: &Vec<String>) -> (r: bool)
    ensures
        r == exists|i: int| 0 <= i < entries@.len() && entries@[i]@ == "/usr/bin/checkisomd5"@,
{
    let r = strutil::contains_str(entries, "/usr/bin/checkisomd5");
    proof {
        if r {
            let k = choose|k: int|
                0 <= k < entries.deep_view().len() && entries.deep_view()[k]
                    == "/usr/bin/checkisomd5"@;
            assert(entries@[k]@ == "/usr/bin/checkisomd5"@);
        } else {
            assert forall|i: int|
                0 <= i < entries@.len() implies entries@[i]@ != "/usr/bin/checkisomd5"@ by {
                assert(entries.deep_view()[i] == entries@[i]@);
            }
        }
    }
    r
}

/// The versioned kernel-modules directory: by convention the second listed
/// entry; fewer than two entries violate the expected repository layout.
pub fn select_module_dir(entries: &Vec<String>) -> (r: Result<String, BuildError>)
    ensures
        entries@.len() >= 2 ==> match r {
            Ok(dir) => dir@ == entries@[1]@,
            _ => false,
        },
        entries@.len() < 2 ==> match r {
            Err(BuildError::Error(msg)) => msg@ == "Kernel modules directory not found"@,
            _ => false,
        },
{
    if entries.len() >= 2 {
        Ok(entries[1].clone())
    } else {
        Err(BuildError::Error("Kernel modules directory not found".to_owned()))
    }
}

} // verus!

use oic::creator::livecreator;
use oic::creator::livecreator::LiveCreator;
use oic::creator::manifest;
use oic::creator::manifest::ImageType;
use oic::creator::manifest::LiveOptions;
use oic::creator::manifest::Manifest;
use oic::creator::validate_configdir;
use oic::creator::BuildError;
use oic::creator::DiskCreator;

fn live_manifest() -> Manifest {
    Manifest {
        image_type: ImageType::Live,
        size: manifest::default_size(),
        selinux: false,
        osname: "testos".to_string(),
        main_ref: "testos/x86_64/test".to_string(),
        refs: vec!["testos/${basearch}/test".to_string()],
        remote_url: "/repo".to_string(),
        extra_kargs: vec!["quiet".to_string()],
        live: LiveOptions {
            title: manifest::default_live_title(),
            product: manifest::default_live_product(),
            timeout: 30,
            squashfs_compression: manifest::default_live_squashfs_compression(),
        },
    }
}

fn live_creator() -> LiveCreator {
    LiveCreator::with_timestamp(
        "x86_64",
        "/var/tmp",
        None,
        None,
        None,
        false,
        &live_manifest(),
        "202001020304",
    )
}

#[test]
fn manifest_defaults() {
    assert_eq!(manifest::default_selinux(), false);
    assert_eq!(manifest::default_size(), "4 GiB");
    assert_eq!(manifest::default_live_title(), "Linux");
    assert_eq!(manifest::default_live_product(), "Linux (Live)");
    assert_eq!(manifest::default_live_timeout(), 600);
    assert_eq!(manifest::default_live_squashfs_compression(), "zstd");
}

#[test]
fn repo_override_replaces_remote() {
    let m = live_manifest().with_repo_override(Some("/srv/repo"));
    assert_eq!(m.remote_url, "file:///srv/repo");
    assert_eq!(m.osname, "testos");
    let unchanged = live_manifest().with_repo_override(None);
    assert_eq!(unchanged.remote_url, "/repo");
}

#[test]
fn scenario_live_build_derivation() {
    let c = live_creator();
    assert_eq!(c.volset, "testos-202001020304-x86_64");
    assert_eq!(c.fslabel, "testos-202001020304-x86_64");
    assert_eq!(c.filename, "testos-202001020304-x86_64.iso");
    assert!(c.repo_is_local);
    assert_eq!(c.repodir, "/repo");
    assert_eq!(c.refspec, "testos/x86_64/test");
    assert_eq!(c.refs, vec!["testos/x86_64/test"]);
}

#[test]
fn fslabel_is_volset_truncated_to_32_bytes() {
    let mut m = live_manifest();
    m.osname = "a-rather-long-operating-system-name".to_string();
    let c = LiveCreator::with_timestamp(
        "x86_64", "/var/tmp", None, None, None, false, &m, "202001020304",
    );
    assert_eq!(c.volset, "a-rather-long-operating-system-name-202001020304-x86_64");
    assert_eq!(c.fslabel, "a-rather-long-operating-system-n");
    assert_eq!(c.fslabel.len(), 32);
}

#[test]
fn fslabel_override_is_used_and_truncated() {
    let c = LiveCreator::with_timestamp(
        "x86_64",
        "/var/tmp",
        None,
        None,
        Some("MYLABEL"),
        false,
        &live_manifest(),
        "202001020304",
    );
    assert_eq!(c.fslabel, "MYLABEL");
    let long = "0123456789012345678901234567890123456789";
    let c = LiveCreator::with_timestamp(
        "x86_64",
        "/var/tmp",
        None,
        None,
        Some(long),
        false,
        &live_manifest(),
        "202001020304",
    );
    assert_eq!(c.fslabel, "01234567890123456789012345678901");
}

#[test]
fn remote_repository_uses_workdir_repo() {
    let mut m = live_manifest();
    m.remote_url = "https://example.org/repo".to_string();
    let c = LiveCreator::with_timestamp(
        "x86_64", "/var/tmp", None, None, None, false, &m, "202001020304",
    );
    assert!(!c.repo_is_local);
    assert_eq!(c.repodir, "/var/tmp/repo");
    let commands = c.repo_sync_commands();
    assert_eq!(commands.len(), 3);
    assert_eq!(
        commands[0],
        vec!["ostree", "--repo=/var/tmp/repo", "init", "--mode=archive"]
    );
    assert_eq!(
        commands[1],
        vec![
            "ostree",
            "--repo=/var/tmp/repo",
            "remote",
            "add",
            "--if-not-exists",
            "--no-gpg-verify",
            "testos",
            "https://example.org/repo"
        ]
    );
    assert_eq!(
        commands[2],
        vec![
            "ostree",
            "--repo=/var/tmp/repo",
            "pull",
            "--mirror",
            "testos:testos/x86_64/test"
        ]
    );
}

#[test]
fn local_repository_needs_no_sync() {
    let c = live_creator();
    assert_eq!(c.repo_sync_commands().len(), 0);
}

#[test]
fn precheck_refuses_existing_output_without_force() {
    let c = live_creator();
    match c.precheck(true) {
        Err(BuildError::Error(msg)) => assert_eq!(
            msg,
            "File testos-202001020304-x86_64.iso already exist, you can force a rebuild passing `--force`"
        ),
        other => panic!("expected an error, got {:?}", other),
    }
    assert!(c.precheck(false).is_ok());
}

#[test]
fn precheck_allows_overwrite_with_force() {
    let c = LiveCreator::with_timestamp(
        "x86_64",
        "/var/tmp",
        None,
        None,
        None,
        true,
        &live_manifest(),
        "202001020304",
    );
    assert!(c.precheck(true).is_ok());
}

#[test]
fn resolve_command_is_deterministic() {
    let c = live_creator();
    assert_eq!(c.resolve_command(), c.resolve_command());
    assert_eq!(
        c.resolve_command(),
        vec!["ostree", "--repo=/repo", "rev-parse", "testos/x86_64/test"]
    );
    // Reads pinned to one commit issue identical requests each time.
    assert_eq!(
        c.kernel_modules_list_command("deadbeef"),
        c.kernel_modules_list_command("deadbeef")
    );
    assert_eq!(
        c.memtest_checkout_command("/usr/lib/ostree-boot/memtest86+-5.31", "/w/images", "deadbeef"),
        c.memtest_checkout_command("/usr/lib/ostree-boot/memtest86+-5.31", "/w/images", "deadbeef")
    );
}

#[test]
fn module_dir_is_second_entry() {
    let entries = vec!["/usr/lib/modules".to_string(), "/usr/lib/modules/5.6.13".to_string()];
    assert_eq!(livecreator::select_module_dir(&entries), Ok("/usr/lib/modules/5.6.13".to_string()));
}

#[test]
fn too_short_module_listing_is_structural_error() {
    let entries = vec!["/usr/lib/modules".to_string()];
    match livecreator::select_module_dir(&entries) {
        Err(BuildError::Error(msg)) => assert_eq!(msg, "Kernel modules directory not found"),
        other => panic!("expected an error, got {:?}", other),
    }
}

#[test]
fn kernel_checkouts_use_fixed_names() {
    let c = live_creator();
    let commands = c.kernel_checkout_commands("/usr/lib/modules/5.6.13", "/w/iso/images", "deadbeef");
    assert_eq!(commands.len(), 2);
    assert_eq!(
        commands[0],
        vec![
            "ostree",
            "--repo=/repo",
            "checkout",
            "--user-mode",
            "--subpath=/usr/lib/modules/5.6.13/vmlinuz",
            "deadbeef",
            "/w/iso/images"
        ]
    );
    assert_eq!(
        commands[1],
        vec![
            "ostree",
            "--repo=/repo",
            "checkout",
            "--user-mode",
            "--subpath=/usr/lib/modules/5.6.13/initramfs.img",
            "deadbeef",
            "/w/iso/images"
        ]
    );
}

#[test]
fn memtest_is_found_by_prefix() {
    let entries = vec![
        "/usr/lib/ostree-boot/efi".to_string(),
        "/usr/lib/ostree-boot/memtest86+-5.31".to_string(),
        "/usr/lib/ostree-boot/memtest86+-5.32".to_string(),
    ];
    assert_eq!(
        livecreator::find_memtest(&entries),
        Some("/usr/lib/ostree-boot/memtest86+-5.31".to_string())
    );
    let none = vec!["/usr/lib/ostree-boot/efi".to_string()];
    assert_eq!(livecreator::find_memtest(&none), None);
}

#[test]
fn memtest_rename_targets_canonical_name() {
    let c = live_creator();
    let (src, dst) = c.memtest_rename("/usr/lib/ostree-boot/memtest86+-5.31", "/w/iso/images");
    assert_eq!(src, "/w/iso/images/memtest86+-5.31");
    assert_eq!(dst, "/w/iso/images/memtest");
}

#[test]
fn checkisomd5_probe() {
    let with = vec!["/usr/bin/ls".to_string(), "/usr/bin/checkisomd5".to_string()];
    assert!(livecreator::has_checkisomd5(&with));
    let without = vec!["/usr/bin/ls".to_string()];
    assert!(!livecreator::has_checkisomd5(&without));
}

#[test]
fn rootfs_plan() {
    let c = live_creator();
    assert_eq!(
        c.create_rootfs_dirs("/w/iso/LiveOS", "/w/rootfs"),
        vec!["/w/iso/LiveOS", "/w/rootfs", "/w/rootfs/ostree/repo", "/w/rootfs/ostree/deploy"]
    );
    let commands = c.create_rootfs_commands("/w/rootfs");
    assert_eq!(commands.len(), 4);
    assert_eq!(
        commands[0],
        vec!["ostree", "--repo=/w/rootfs/ostree/repo", "init", "--mode=bare"]
    );
    assert_eq!(
        commands[1],
        vec![
            "ostree",
            "--repo=/w/rootfs/ostree/repo",
            "pull-local",
            "--disable-fsync",
            "/repo",
            "testos/x86_64/test"
        ]
    );
    assert_eq!(commands[2], vec!["ostree", "admin", "os-init", "testos", "--sysroot=/w/rootfs"]);
    assert_eq!(
        commands[3],
        vec![
            "ostree",
            "admin",
            "deploy",
            "testos/x86_64/test",
            "--sysroot=/w/rootfs",
            "--os=testos"
        ]
    );
    assert_eq!(
        c.rootfs_var_dirs("/w/rootfs"),
        vec![
            "/w/rootfs/ostree/deploy/testos/var/home",
            "/w/rootfs/ostree/deploy/testos/var/log/journal",
            "/w/rootfs/ostree/deploy/testos/var/lib/systemd"
        ]
    );
    assert_eq!(c.matchpathcon_command(), vec!["matchpathcon", "-n", "/home"]);
    assert_eq!(
        c.chcon_command("system_u:object_r:user_home_dir_t:s0", "/w/rootfs"),
        vec![
            "chcon",
            "system_u:object_r:user_home_dir_t:s0",
            "/w/rootfs/ostree/deploy/testos/var/home"
        ]
    );
}

#[test]
fn squashfs_command_appends_compression_args() {
    let mut m = live_manifest();
    m.live.squashfs_compression = "-comp zstd".to_string();
    let c = LiveCreator::with_timestamp(
        "x86_64", "/var/tmp", None, None, None, false, &m, "202001020304",
    );
    assert_eq!(
        c.squashfs_command("/w/iso/LiveOS"),
        vec!["mksquashfs", ".", "/w/iso/LiveOS/squashfs.img", "-comp", "zstd"]
    );
}

#[test]
fn directory_size_estimate_formula() {
    assert_eq!(
        livecreator::estimate_directory_size(&vec![100, 200], Some(25)),
        Some(1 + 300 * 125 / 100)
    );
    assert_eq!(livecreator::estimate_directory_size(&vec![100], None), Some(106));
    assert_eq!(livecreator::estimate_directory_size(&vec![], None), Some(1));
    assert_eq!(livecreator::estimate_directory_size(&vec![u64::MAX, 1], Some(25)), None);
    assert_eq!(livecreator::estimate_directory_size(&vec![u64::MAX], Some(25)), None);
    assert_eq!(livecreator::estimate_directory_size(&vec![1], Some(u64::MAX)), None);
    assert_eq!(livecreator::EFIBOOT_HEADROOM_PERCENT, 25);
}

#[test]
fn efiboot_plan() {
    let c = live_creator();
    assert_eq!(
        c.efi_checkout_command("/w/efi", "deadbeef"),
        vec![
            "ostree",
            "--repo=/repo",
            "checkout",
            "--user-mode",
            "--subpath=/usr/lib/ostree-boot/efi/EFI",
            "deadbeef",
            "/w/efi"
        ]
    );
    assert_eq!(
        c.efiboot_copy_command("/w/efiboot"),
        vec!["cp", "-R", "-L", "--preserve=timestamps", ".", "/w/efiboot/EFI"]
    );
}

#[test]
fn syslinux_files_are_staged() {
    let c = live_creator();
    let copies = c.copy_syslinux("/w/iso/isolinux");
    assert_eq!(copies.len(), 5);
    assert_eq!(copies[0].src, "/usr/share/syslinux/isolinux.bin");
    assert_eq!(copies[0].dst, "/w/iso/isolinux/isolinux.bin");
    assert_eq!(copies[4].src, "/usr/share/syslinux/vesamenu.c32");
    assert_eq!(copies[4].dst, "/w/iso/isolinux/vesamenu.c32");
}

#[test]
fn kargs_are_deduplicated() {
    let c = live_creator();
    assert_eq!(
        c.compute_kargs(),
        "quiet oic.live oic.live.label=testos-202001020304-x86_64"
    );
    let mut m = live_manifest();
    m.extra_kargs = vec!["quiet".to_string(), "oic.live".to_string()];
    let c = LiveCreator::with_timestamp(
        "x86_64", "/var/tmp", None, None, None, false, &m, "202001020304",
    );
    assert_eq!(
        c.compute_kargs(),
        "quiet oic.live oic.live.label=testos-202001020304-x86_64"
    );
}

#[test]
fn overlay_skips_reserved_file() {
    assert!(livecreator::overlay_skip("README-devel.md"));
    assert!(livecreator::overlay_skip("README-devel.md/extra"));
    assert!(!livecreator::overlay_skip("docs/README-devel.md"));
    assert!(!livecreator::overlay_skip("isolinux/splash.png"));
}

#[test]
fn overlay_placeholders_are_substituted() {
    let c = live_creator();
    let out = c.substitute_placeholders(
        "label=@@FSLABEL@@ args=@@KERNEL-ARGS@@ again=@@FSLABEL@@",
        "quiet oic.live",
    );
    assert_eq!(
        out,
        "label=testos-202001020304-x86_64 args=quiet oic.live again=testos-202001020304-x86_64"
    );
}

#[test]
fn scenario_stanza_counts() {
    let c = live_creator();
    let kargs = c.compute_kargs();
    let without_md5 = c.make_template(&kargs, false, false);
    assert_eq!(without_md5.stanzas.len(), 1);
    let with_md5 = c.make_template(&kargs, true, true);
    assert_eq!(with_md5.stanzas.len(), 2);
    assert_eq!(with_md5.stanzas[0].name, "linux");
    assert_eq!(with_md5.stanzas[0].label, "^Start Linux (Live)");
    assert_eq!(with_md5.stanzas[1].name, "check");
    assert_eq!(with_md5.stanzas[1].label, "Test this ^media & start Linux (Live)");
    assert_eq!(
        with_md5.stanzas[1].kargs,
        "quiet oic.live oic.live.label=testos-202001020304-x86_64 oic.live.check"
    );
    assert!(with_md5.memtest);
}

#[test]
fn scenario_geniso_x86_64_has_bios_and_efi_catalogs() {
    let c = live_creator();
    let args = c.geniso_command("/w/output.iso");
    assert_eq!(args[0], "genisoimage");
    assert_eq!(args[2], "-V");
    assert_eq!(args[3], "testos-202001020304-x86_64");
    assert_eq!(args[4], "-volset");
    assert_eq!(args[5], "testos-202001020304-x86_64");
    assert!(args.contains(&"-eltorito-boot".to_string()));
    assert!(args.contains(&"isolinux/isolinux.bin".to_string()));
    assert!(args.contains(&"-eltorito-alt-boot".to_string()));
    assert!(args.contains(&"-efi-boot".to_string()));
    assert!(args.contains(&"images/efiboot.img".to_string()));
    assert_eq!(&args[args.len() - 3..], &["-o", "/w/output.iso", "."]);
}

#[test]
fn geniso_aarch64_has_only_efi_catalog() {
    let c = LiveCreator::with_timestamp(
        "aarch64", "/var/tmp", None, None, None, false, &live_manifest(), "202001020304",
    );
    let args = c.geniso_command("/w/output.iso");
    assert!(!args.contains(&"-eltorito-boot".to_string()));
    assert!(args.contains(&"-eltorito-alt-boot".to_string()));
    assert!(args.contains(&"-efi-boot".to_string()));
}

#[test]
fn geniso_other_architectures_are_data_only() {
    let c = LiveCreator::with_timestamp(
        "riscv64", "/var/tmp", None, None, None, false, &live_manifest(), "202001020304",
    );
    let args = c.geniso_command("/w/output.iso");
    assert_eq!(
        args,
        vec![
            "genisoimage",
            "-verbose",
            "-V",
            "testos-202001020304-riscv64",
            "-volset",
            "testos-202001020304-riscv64",
            "-rational-rock",
            "-J",
            "-joliet-long",
            "-o",
            "/w/output.iso",
            "."
        ]
    );
    assert!(!args.contains(&"-eltorito-boot".to_string()));
    assert!(!args.contains(&"-eltorito-alt-boot".to_string()));
    assert!(!args.contains(&"-efi-boot".to_string()));
    assert!(!args.contains(&"-eltorito-catalog".to_string()));
}

#[test]
fn post_processing_depends_on_arch_and_checker() {
    let c = live_creator();
    assert_eq!(
        c.post_process_commands("/w/output.iso", true),
        vec![vec!["isohybrid", "/w/output.iso"], vec!["implantisomd5", "/w/output.iso"]]
    );
    assert_eq!(
        c.post_process_commands("/w/output.iso", false),
        vec![vec!["isohybrid", "/w/output.iso"]]
    );
    let arm = LiveCreator::with_timestamp(
        "aarch64", "/var/tmp", None, None, None, false, &live_manifest(), "202001020304",
    );
    assert_eq!(
        arm.post_process_commands("/w/output.iso", false),
        Vec::<Vec<String>>::new()
    );
    assert_eq!(
        c.move_command("/w/output.iso"),
        vec!["mv", "-f", "/w/output.iso", "testos-202001020304-x86_64.iso"]
    );
}

#[test]
fn workspace_layout() {
    let w = livecreator::workspace_paths("/var/tmp/build1");
    assert_eq!(w.isoroot, "/var/tmp/build1/iso");
    assert_eq!(w.isoimages, "/var/tmp/build1/iso/images");
    assert_eq!(w.isolinux, "/var/tmp/build1/iso/isolinux");
    assert_eq!(w.efidir, "/var/tmp/build1/iso/EFI/fedora");
    assert_eq!(w.isofile, "/var/tmp/build1/output.iso");
    assert_eq!(w.liveos, "/var/tmp/build1/iso/LiveOS");
    assert_eq!(w.rootfs, "/var/tmp/build1/rootfs");
    assert_eq!(w.efi_source, "/var/tmp/build1/efi");
    assert_eq!(w.efi_mount, "/var/tmp/build1/efiboot");
    assert_eq!(w.efiboot_image, "/var/tmp/build1/iso/images/efiboot.img");
    assert_eq!(w.grub_config, "/var/tmp/build1/iso/EFI/fedora/grub.cfg");
    assert_eq!(w.isolinux_config, "/var/tmp/build1/iso/isolinux/isolinux.cfg");
}

#[test]
fn configdir_validation() {
    assert!(validate_configdir(true, true, true).is_ok());
    match validate_configdir(false, false, false) {
        Err(BuildError::Error(msg)) => assert_eq!(msg, "Media configuration path does not exist"),
        other => panic!("unexpected {:?}", other),
    }
    match validate_configdir(true, false, false) {
        Err(BuildError::Error(msg)) => assert_eq!(msg, "Media configuration path is not a directory"),
        other => panic!("unexpected {:?}", other),
    }
    match validate_configdir(true, true, false) {
        Err(BuildError::Error(msg)) => assert_eq!(msg, "Invalid media configuration directory"),
        other => panic!("unexpected {:?}", other),
    }
}

#[test]
fn disk_creator_derivation_and_stub() {
    let c = DiskCreator::with_timestamp(
        "x86_64",
        "/var/tmp",
        None,
        None,
        false,
        &live_manifest(),
        "202001020304",
    );
    assert_eq!(c.filename, "testos-202001020304-x86_64");
    match c.build(true) {
        Err(BuildError::Error(msg)) => assert_eq!(
            msg,
            "File testos-202001020304-x86_64 already exist, you can force a rebuild passing `--force`"
        ),
        other => panic!("unexpected {:?}", other),
    }
    assert!(c.build(false).is_ok());
    let named = DiskCreator::with_timestamp(
        "x86_64",
        "/var/tmp",
        Some("/cfg"),
        Some("out.img"),
        true,
        &live_manifest(),
        "202001020304",
    );
    assert_eq!(named.filename, "out.img");
    assert!(named.build(true).is_ok());
}

#[test]
fn stage_order_is_a_linear_chain() {
    let mut stage = livecreator::BuildStage::Init;
    let mut steps = 0;
    while let Some(next) = stage.advance() {
        stage = next;
        steps += 1;
        assert!(steps <= 12, "the chain must end");
    }
    assert_eq!(steps, 12);
    assert_eq!(stage, livecreator::BuildStage::Finalized);
    assert_eq!(stage.name(), "finalized");
    assert!(stage.advance().is_none());
}

#[test]
fn build_error_messages() {
    assert_eq!(BuildError::Io("broken pipe".to_string()).message(), "broken pipe");
    assert_eq!(BuildError::Error("bad layout".to_string()).message(), "bad layout");
    let from_cmd: BuildError = oic::cmd::CommandError::ProcessTerminated.into();
    assert_eq!(from_cmd.message(), "Process terminated by signal");
    let from_ostree: BuildError = oic::ostree::OstreeError::CommandExited(3).into();
    assert_eq!(from_ostree.message(), "Command exited with: 3");
}

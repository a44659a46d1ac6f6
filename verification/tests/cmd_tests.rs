use oic::cmd;
use oic::cmd::CommandError;
use oic::cmd::ProcessOutput;
use oic::cmd::ProcessStatus;
use oic::diskimage::DiskImage;
use oic::ostree;
use oic::ostree::OstreeArchiveMode;
use oic::ostree::OstreeError;

#[test]
fn status_success_is_ok() {
    let status = ProcessStatus { success: true, code: Some(0) };
    assert_eq!(cmd::result_from_status(status), Ok(()));
}

#[test]
fn status_exit_code_is_reported() {
    let status = ProcessStatus { success: false, code: Some(3) };
    assert_eq!(cmd::result_from_status(status), Err(CommandError::CommandExited(3)));
}

#[test]
fn status_signal_is_reported() {
    let status = ProcessStatus { success: false, code: None };
    assert_eq!(cmd::result_from_status(status), Err(CommandError::ProcessTerminated));
}

#[test]
fn output_failure_carries_trimmed_stderr() {
    let output = ProcessOutput {
        success: false,
        stdout: String::new(),
        stderr: "  boom \n".to_string(),
    };
    assert_eq!(
        cmd::result_from_output(&output, "mksquashfs"),
        Err(CommandError::CommandFailed("mksquashfs".to_string(), "boom".to_string()))
    );
}

#[test]
fn output_success_is_ok() {
    let output = ProcessOutput {
        success: true,
        stdout: "ignored".to_string(),
        stderr: String::new(),
    };
    assert_eq!(cmd::result_from_output(&output, "mksquashfs"), Ok(()));
}

#[test]
fn string_output_is_trimmed() {
    let output = ProcessOutput {
        success: true,
        stdout: " abc123\n".to_string(),
        stderr: String::new(),
    };
    assert_eq!(cmd::string_result_from_output(&output, "matchpathcon"), Ok("abc123".to_string()));
}

#[test]
fn exec_failed_variant_round_trips() {
    let err = CommandError::ExecFailed("ostree".to_string(), "not found".to_string());
    assert_eq!(err.clone(), err);
    let internal = CommandError::InternalError("io".to_string());
    assert_ne!(internal, err);
}

#[test]
fn ostree_status_classification() {
    assert_eq!(
        ostree::result_from_status(ProcessStatus { success: false, code: Some(1) }),
        Err(OstreeError::CommandExited(1))
    );
    assert_eq!(
        ostree::result_from_status(ProcessStatus { success: false, code: None }),
        Err(OstreeError::ProcessTerminated)
    );
    assert_eq!(ostree::result_from_status(ProcessStatus { success: true, code: Some(0) }), Ok(()));
}

#[test]
fn ostree_paths_output_splits_on_nul() {
    let output = ProcessOutput {
        success: true,
        stdout: "/usr/lib/modules\u{0}/usr/lib/modules/5.6.13\n".to_string(),
        stderr: String::new(),
    };
    let paths = ostree::paths_result_from_output(&output, "ostree ls").unwrap();
    assert_eq!(paths, vec!["/usr/lib/modules", "/usr/lib/modules/5.6.13"]);
}

#[test]
fn ostree_paths_output_failure() {
    let output = ProcessOutput {
        success: false,
        stdout: String::new(),
        stderr: " no repo \n".to_string(),
    };
    assert_eq!(
        ostree::paths_result_from_output(&output, "ostree ls"),
        Err(OstreeError::CommandFailed("ostree ls".to_string(), "no repo".to_string()))
    );
}

#[test]
fn init_argv() {
    assert_eq!(
        ostree::init("/w/repo", OstreeArchiveMode::Archive),
        vec!["ostree", "--repo=/w/repo", "init", "--mode=archive"]
    );
    assert_eq!(
        ostree::init("/w/repo", OstreeArchiveMode::Bare),
        vec!["ostree", "--repo=/w/repo", "init", "--mode=bare"]
    );
}

#[test]
fn resolve_rev_argv() {
    assert_eq!(
        ostree::resolve_rev("/w/repo", "testos/x86_64/test"),
        vec!["ostree", "--repo=/w/repo", "rev-parse", "testos/x86_64/test"]
    );
}

#[test]
fn remote_add_argv() {
    assert_eq!(
        ostree::remote_add("/w/repo", "testos", "https://example.org/repo"),
        vec![
            "ostree",
            "--repo=/w/repo",
            "remote",
            "add",
            "--if-not-exists",
            "--no-gpg-verify",
            "testos",
            "https://example.org/repo"
        ]
    );
}

#[test]
fn mirror_argv() {
    assert_eq!(
        ostree::mirror("/w/repo", "testos", "testos/x86_64/test"),
        vec!["ostree", "--repo=/w/repo", "pull", "--mirror", "testos:testos/x86_64/test"]
    );
}

#[test]
fn pull_local_argv() {
    let refs = vec!["a/x".to_string(), "b/y".to_string()];
    assert_eq!(
        ostree::pull_local("/src/repo", "/dst/repo", &refs),
        vec!["ostree", "--repo=/dst/repo", "pull-local", "--disable-fsync", "/src/repo", "a/x", "b/y"]
    );
}

#[test]
fn list_argv() {
    assert_eq!(
        ostree::list("/w/repo", "/usr/lib/modules", "deadbeef"),
        vec!["ostree", "--repo=/w/repo", "ls", "--nul-filenames-only", "deadbeef", "/usr/lib/modules"]
    );
}

#[test]
fn checkout_argv() {
    assert_eq!(
        ostree::checkout("/w/repo", "/usr/lib/modules/5.6.13/vmlinuz", "/w/iso/images", "deadbeef"),
        vec![
            "ostree",
            "--repo=/w/repo",
            "checkout",
            "--user-mode",
            "--subpath=/usr/lib/modules/5.6.13/vmlinuz",
            "deadbeef",
            "/w/iso/images"
        ]
    );
}

#[test]
fn os_init_argv() {
    assert_eq!(
        ostree::os_init("testos", "/w/rootfs"),
        vec!["ostree", "admin", "os-init", "testos", "--sysroot=/w/rootfs"]
    );
}

#[test]
fn deploy_argv() {
    assert_eq!(
        ostree::deploy("testos", "testos/x86_64/test", "/w/rootfs"),
        vec![
            "ostree",
            "admin",
            "deploy",
            "testos/x86_64/test",
            "--sysroot=/w/rootfs",
            "--os=testos"
        ]
    );
}

#[test]
fn disk_image_create_carries_exact_size() {
    let disk = DiskImage::new("/w/images/efiboot.img", "/w/efiboot");
    let request = disk.create(7340032);
    assert_eq!(request.path, "/w/images/efiboot.img");
    assert_eq!(request.size, 7340032);
}

#[test]
fn disk_image_command_vectors() {
    let disk = DiskImage::new("/w/images/efiboot.img", "/w/efiboot");
    assert_eq!(disk.format("msdos"), vec!["mkfs.msdos", "/w/images/efiboot.img"]);
    assert_eq!(
        disk.mount(),
        vec!["mount", "-n", "/w/images/efiboot.img", "/w/efiboot", "-oloop"]
    );
    assert_eq!(disk.umount(), vec!["umount", "--recursive", "-n", "/w/efiboot"]);
}

#[test]
fn command_error_messages() {
    assert_eq!(
        CommandError::ExecFailed("ostree".to_string(), "No such file".to_string()).message(),
        "Command ostree failed to start: No such file"
    );
    assert_eq!(CommandError::CommandExited(2).message(), "Command exited with: 2");
    assert_eq!(CommandError::CommandExited(-11).message(), "Command exited with: -11");
    assert_eq!(CommandError::ProcessTerminated.message(), "Process terminated by signal");
    assert_eq!(
        CommandError::CommandFailed("mksquashfs".to_string(), "boom".to_string()).message(),
        "Command mksquashfs exited unsucessfully with stderr: boom"
    );
    assert_eq!(CommandError::InternalError("io".to_string()).message(), "Internal Error: io");
}

#[test]
fn ostree_error_messages() {
    assert_eq!(OstreeError::CommandExited(1).message(), "Command exited with: 1");
    assert_eq!(
        OstreeError::CommandFailed("ostree ls".to_string(), "no repo".to_string()).message(),
        "Command ostree ls exited unsucessfully with stderr: no repo"
    );
}

//! The repository client: a typed facade over the OSTree command-line tool.
//!
//! Every operation has a fixed argument grammar, stated exactly by each
//! builder's contract; the first element of every vector is the program name.
//! The surrounding binary spawns the vector as a process and reports the
//! outcome back through the classifiers at the end of this module.

use crate::cmd::ProcessOutput;
use crate::cmd::ProcessStatus;
use crate::strutil;
use vstd::assert_seqs_equal;
use vstd::prelude::*;
use vstd::string::StringExecFns;

verus! {

/// How an OSTree invocation failed.
#[derive(Debug, Clone, PartialEq)]
pub enum OstreeError {
    /// The tool could not be started; carries the operation name and the
    /// spawn error's text.
    ExecFailed(String, String),
    /// The tool exited with this non-zero code.
    CommandExited(i32),
    /// The tool was terminated by a signal.
    ProcessTerminated,
    /// The tool exited unsuccessfully; carries the operation name and the
    /// trimmed standard-error text.
    CommandFailed(String, String),
    /// A failure of the runner itself, reported as text.
    InternalError(String),
}

pub type OstreeResult<T> = Result<T, OstreeError>;

/// The user-facing description of a repository-operation failure.
pub open spec fn spec_ostree_error_message(e: &OstreeError) -> Seq<char> {
    match e {
        OstreeError::ExecFailed(name, text) => "Command "@ + name@ + " failed to start: "@ + text@,
        OstreeError::CommandExited(code) => "Command exited with: "@ + strutil::spec_dec_signed(
            *code as int,
        ),
        OstreeError::ProcessTerminated => "Process terminated by signal"@,
        OstreeError::CommandFailed(name, text) => "Command "@ + name@
            + " exited unsucessfully with stderr: "@ + text@,
        OstreeError::InternalError(text) => "Internal Error: "@ + text@,
    }
}

impl OstreeError {
    /// Renders the failure for the user, exactly as
    /// [`spec_ostree_error_message`] describes it.
    pub fn message(&self) -> (r: String)
        ensures
            r@ == spec_ostree_error_message(self),
    {
        match self {
            OstreeError::ExecFailed(name, text) => {
                let mut m = "Command ".to_owned();
                m.append(name.as_str());
                m.append(" failed to start: ");
                m.append(text.as_str());
                m
            },
            OstreeError::CommandExited(code) => {
                let mut m = "Command exited with: ".to_owned();
                let digits = strutil::i32_to_string(*code);
                m.append(digits.as_str());
                m
            },
            OstreeError::ProcessTerminated => "Process terminated by signal".to_owned(),
            OstreeError::CommandFailed(name, text) => {
                let mut m = "Command ".to_owned();
                m.append(name.as_str());
                m.append(" exited unsucessfully with stderr: ");
                m.append(text.as_str());
                m
            },
            OstreeError::InternalError(text) => {
                let mut m = "Internal Error: ".to_owned();
                m.append(text.as_str());
                m
            },
        }
    }
}

/// The layout a new repository is initialized with.
#[derive(Debug, Clone, Copy, PartialEq, Eq, Structural)]
pub enum OstreeArchiveMode {
    Bare,
    Archive,
}

/// The argument grammar of `init`.
pub open spec fn spec_init_argv(repo_path: Seq<char>, mode: OstreeArchiveMode) -> Seq<Seq<char>> {
    seq![
        "ostree"@,
        "--repo="@ + repo_path,
        "init"@,
        match mode {
            OstreeArchiveMode::Bare => "--mode=bare"@,
            OstreeArchiveMode::Archive => "--mode=archive"@,
        },
    ]
}

/// The argument grammar of `resolve_rev`.
pub open spec fn spec_resolve_rev_argv(repo_path: Seq<char>, refspec: Seq<char>) -> Seq<Seq<char>> {
    seq!["ostree"@, "--repo="@ + repo_path, "rev-parse"@, refspec]
}

/// The argument grammar of `remote_add`.
pub open spec fn spec_remote_add_argv(
    repo_path: Seq<char>,
    osname: Seq<char>,
    remote_url: Seq<char>,
) -> Seq<Seq<char>> {
    seq![
        "ostree"@,
        "--repo="@ + repo_path,
        "remote"@,
        "add"@,
        "--if-not-exists"@,
        "--no-gpg-verify"@,
        osname,
        remote_url,
    ]
}

/// The argument grammar of `mirror`.
pub open spec fn spec_mirror_argv(
    repo_path: Seq<char>,
    osname: Seq<char>,
    refspec: Seq<char>,
) -> Seq<Seq<char>> {
    seq!["ostree"@, "--repo="@ + repo_path, "pull"@, "--mirror"@, osname + ":"@ + refspec]
}

/// The argument grammar of `pull_local`.
pub open spec fn spec_pull_local_argv(
    srcrepo_path: Seq<char>,
    dstrepo_path: Seq<char>,
    refs: Seq<Seq<char>>,
) -> Seq<Seq<char>> {
    seq![
        "ostree"@,
        "--repo="@ + dstrepo_path,
        "pull-local"@,
        "--disable-fsync"@,
        srcrepo_path,
    ] + refs
}

/// The argument grammar of `list`.
pub open spec fn spec_list_argv(repo_path: Seq<char>, path: Seq<char>, rev: Seq<char>) -> Seq<
    Seq<char>,
> {
    seq!["ostree"@, "--repo="@ + repo_path, "ls"@, "--nul-filenames-only"@, rev, path]
}

/// The argument grammar of `checkout`.
pub open spec fn spec_checkout_argv(
    repo_path: Seq<char>,
    src_path: Seq<char>,
    dest_path: Seq<char>,
    rev: Seq<char>,
) -> Seq<Seq<char>> {
    seq![
        "ostree"@,
        "--repo="@ + repo_path,
        "checkout"@,
        "--user-mode"@,
        "--subpath="@ + src_path,
        rev,
        dest_path,
    ]
}

/// The argument grammar of `os_init`.
pub open spec fn spec_os_init_argv(osname: Seq<char>, sysroot_path: Seq<char>) -> Seq<Seq<char>> {
    seq!["ostree"@, "admin"@, "os-init"@, osname, "--sysroot="@ + sysroot_path]
}

/// The argument grammar of `deploy`.
pub open spec fn spec_deploy_argv(
    osname: Seq<char>,
    refspec: Seq<char>,
    sysroot_path: Seq<char>,
) -> Seq<Seq<char>> {
    seq![
        "ostree"@,
        "admin"@,
        "deploy"@,
        refspec,
        "--sysroot="@ + sysroot_path,
        "--os="@ + osname,
    ]
}

/// Pinned reads are deterministic on the library's side: resolving the
/// same refspec in the same repository issues the identical request, and
/// every list or checkout against the same commit identifier issues the
/// identical request. That identical requests to an unchanged repository
/// return identical results is the content-addressed store's guarantee,
/// outside this library.
pub proof fn lemma_pinned_reads_deterministic(
    repo1: Seq<char>,
    repo2: Seq<char>,
    refspec1: Seq<char>,
    refspec2: Seq<char>,
    path1: Seq<char>,
    path2: Seq<char>,
    dest1: Seq<char>,
    dest2: Seq<char>,
    rev1: Seq<char>,
    rev2: Seq<char>,
)
    requires
        repo1 == repo2,
        refspec1 == refspec2,
        path1 == path2,
        dest1 == dest2,
        rev1 == rev2,
    ensures
        spec_resolve_rev_argv(repo1, refspec1) == spec_resolve_rev_argv(repo2, refspec2),
        spec_list_argv(repo1, path1, rev1) == spec_list_argv(repo2, path2, rev2),
        spec_checkout_argv(repo1, path1, dest1, rev1) == spec_checkout_argv(
            repo2,
            path2,
            dest2,
            rev2,
        ),
{
}

/// Classifies a bare exit status of an OSTree invocation.
pub fn result_from_status(status: ProcessStatus) -> (r: OstreeResult<()>)
    ensures
        status.success ==> r == OstreeResult::<()>::Ok(()),
        !status.success ==> match status.code {
            Some(code) => r == OstreeResult::<()>::Err(OstreeError::CommandExited(code)),
            None => r == OstreeResult::<()>::Err(OstreeError::ProcessTerminated),
        },
{
    if !status.success {
        match status.code {
            Some(code) => Err(OstreeError::CommandExited(code)),
            None => Err(OstreeError::ProcessTerminated),
        }
    } else {
        Ok(())
    }
}

/// Classifies a captured OSTree invocation named `command`, handing back its
/// trimmed standard output on success.
pub fn string_result_from_output(output: &ProcessOutput, command: &str) -> (r: OstreeResult<
    String,
>)
    ensures
        output.success ==> match r {
            Ok(out) => out@ == strutil::spec_trim(output.stdout@),
            _ => false,
        },
        !output.success ==> match r {
            Err(OstreeError::CommandFailed(name, err)) => name@ == command@ && err@
                == strutil::spec_trim(output.stderr@),
            _ => false,
        },
{
    if !output.success {
        Err(OstreeError::CommandFailed(command.to_owned(), strutil::trim(output.stderr.as_str())))
    } else {
        Ok(strutil::trim(output.stdout.as_str()))
    }
}

/// Splits a captured NUL-separated path listing into its entries, after
/// trimming the captured text as the string classifier does.
pub fn paths_result_from_output(output: &ProcessOutput, command: &str) -> (r: OstreeResult<
    Vec<String>,
>)
    ensures
        output.success ==> match r {
            Ok(paths) => paths.deep_view() == strutil::spec_split(
                strutil::spec_trim(output.stdout@),
                '\0',
            ),
            _ => false,
        },
        !output.success ==> match r {
            Err(OstreeError::CommandFailed(name, err)) => name@ == command@ && err@
                == strutil::spec_trim(output.stderr@),
            _ => false,
        },
{
    if !output.success {
        Err(OstreeError::CommandFailed(command.to_owned(), strutil::trim(output.stderr.as_str())))
    } else {
        let trimmed = strutil::trim(output.stdout.as_str());
        Ok(strutil::split_char(trimmed.as_str(), '\0'))
    }
}

fn repo_flag(repo_path: &str) -> (r: String)
    ensures
        r@ == "--repo="@ + repo_path@,
{
    let mut s = "--repo=".to_owned();
    s.append(repo_path);
    s
}

/// The argument vector that creates a repository at `repo_path` with the
/// given layout.
pub fn init(repo_path: &str, mode: OstreeArchiveMode) -> (r: Vec<String>)
    ensures
        r.deep_view() == spec_init_argv(repo_path@, mode),
{
    let mut args: Vec<String> = Vec::new();
    args.push("ostree".to_owned());
    args.push(repo_flag(repo_path));
    args.push("init".to_owned());
    match mode {
        OstreeArchiveMode::Bare => args.push("--mode=bare".to_owned()),
        OstreeArchiveMode::Archive => args.push("--mode=archive".to_owned()),
    }
    proof {
        assert_seqs_equal!(args.deep_view(), seq![
            "ostree"@,
            "--repo="@ + repo_path@,
            "init"@,
            match mode {
                OstreeArchiveMode::Bare => "--mode=bare"@,
                OstreeArchiveMode::Archive => "--mode=archive"@,
            },
        ]);
    }
    args
}

/// The argument vector that resolves `refspec` to a commit identifier in the
/// repository at `repo_path`.
pub fn resolve_rev(repo_path: &str, refspec: &str) -> (r: Vec<String>)
    ensures
        r.deep_view() == spec_resolve_rev_argv(repo_path@, refspec@),
{
    let mut args: Vec<String> = Vec::new();
    args.push("ostree".to_owned());
    args.push(repo_flag(repo_path));
    args.push("rev-parse".to_owned());
    args.push(refspec.to_owned());
    proof {
        assert_seqs_equal!(args.deep_view(),
            seq!["ostree"@, "--repo="@ + repo_path@, "rev-parse"@, refspec@]);
    }
    args
}

/// The argument vector that idempotently adds the remote `osname` at
/// `remote_url` to the repository at `repo_path`, with signature
/// verification disabled.
pub fn remote_add(repo_path: &str, osname: &str, remote_url: &str) -> (r: Vec<String>)
    ensures
        r.deep_view() == spec_remote_add_argv(repo_path@, osname@, remote_url@),
{
    let mut args: Vec<String> = Vec::new();
    args.push("ostree".to_owned());
    args.push(repo_flag(repo_path));
    args.push("remote".to_owned());
    args.push("add".to_owned());
    args.push("--if-not-exists".to_owned());
    args.push("--no-gpg-verify".to_owned());
    args.push(osname.to_owned());
    args.push(remote_url.to_owned());
    proof {
        assert_seqs_equal!(args.deep_view(), seq![
            "ostree"@,
            "--repo="@ + repo_path@,
            "remote"@,
            "add"@,
            "--if-not-exists"@,
            "--no-gpg-verify"@,
            osname@,
            remote_url@,
        ]);
    }
    args
}

/// The argument vector that mirrors everything reachable from
/// `osname:refspec` into the repository at `repo_path`.
pub fn mirror(repo_path: &str, osname: &str, refspec: &str) -> (r: Vec<String>)
    ensures
        r.deep_view() == spec_mirror_argv(repo_path@, osname@, refspec@),
{
    let mut args: Vec<String> = Vec::new();
    args.push("ostree".to_owned());
    args.push(repo_flag(repo_path));
    args.push("pull".to_owned());
    args.push("--mirror".to_owned());
    let mut spec_arg = osname.to_owned();
    spec_arg.append(":");
    spec_arg.append(refspec);
    args.push(spec_arg);
    proof {
        assert_seqs_equal!(args.deep_view(), seq![
            "ostree"@,
            "--repo="@ + repo_path@,
            "pull"@,
            "--mirror"@,
            osname@ + ":"@ + refspec@,
        ]);
    }
    args
}

/// The argument vector that copies the commits of `refs` from the local
/// repository at `srcrepo_path` into the one at `dstrepo_path`, with fsync
/// disabled.
pub fn pull_local(srcrepo_path: &str, dstrepo_path: &str, refs: &Vec<String>) -> (r: Vec<String>)
    ensures
        r.deep_view() == spec_pull_local_argv(srcrepo_path@, dstrepo_path@, refs.deep_view()),
{
    let mut args: Vec<String> = Vec::new();
    args.push("ostree".to_owned());
    args.push(repo_flag(dstrepo_path));
    args.push("pull-local".to_owned());
    args.push("--disable-fsync".to_owned());
    args.push(srcrepo_path.to_owned());
    let ghost head = args.deep_view();
    let mut i: usize = 0;
    while i < refs.len()
        invariant
            i <= refs.len(),
            args@.len() == 5 + i,
            forall|k: int| 0 <= k < 5 ==> args@[k]@ == head[k],
            forall|k: int| 0 <= k < i ==> args@[5 + k]@ == refs@[k]@,
            head == seq![
                "ostree"@,
                "--repo="@ + dstrepo_path@,
                "pull-local"@,
                "--disable-fsync"@,
                srcrepo_path@,
            ],
        decreases refs.len() - i,
    {
        args.push(refs[i].clone());
        i += 1;
    }
    proof {
        assert(args.deep_view() =~~= head + refs.deep_view());
    }
    args
}

/// The argument vector that lists the entries under `path` as committed at
/// `rev`, NUL-separated.
pub fn list(repo_path: &str, path: &str, rev: &str) -> (r: Vec<String>)
    ensures
        r.deep_view() == spec_list_argv(repo_path@, path@, rev@),
{
    let mut args: Vec<String> = Vec::new();
    args.push("ostree".to_owned());
    args.push(repo_flag(repo_path));
    args.push("ls".to_owned());
    args.push("--nul-filenames-only".to_owned());
    args.push(rev.to_owned());
    args.push(path.to_owned());
    proof {
        assert_seqs_equal!(args.deep_view(), seq![
            "ostree"@,
            "--repo="@ + repo_path@,
            "ls"@,
            "--nul-filenames-only"@,
            rev@,
            path@,
        ]);
    }
    args
}

/// The argument vector that materializes the subtree `src_path`, as
/// committed at `rev`, into `dest_path`, with permissions normalized to
/// user-writable.
pub fn checkout(repo_path: &str, src_path: &str, dest_path: &str, rev: &str) -> (r: Vec<String>)
    ensures
        r.deep_view() == spec_checkout_argv(repo_path@, src_path@, dest_path@, rev@),
{
    let mut args: Vec<String> = Vec::new();
    args.push("ostree".to_owned());
    args.push(repo_flag(repo_path));
    args.push("checkout".to_owned());
    args.push("--user-mode".to_owned());
    let mut subpath_arg = "--subpath=".to_owned();
    subpath_arg.append(src_path);
    args.push(subpath_arg);
    args.push(rev.to_owned());
    args.push(dest_path.to_owned());
    proof {
        assert_seqs_equal!(args.deep_view(), seq![
            "ostree"@,
            "--repo="@ + repo_path@,
            "checkout"@,
            "--user-mode"@,
            "--subpath="@ + src_path@,
            rev@,
            dest_path@,
        ]);
    }
    args
}

/// The argument vector that initializes an OSTree sysroot layout for
/// `osname` under `sysroot_path`.
pub fn os_init(osname: &str, sysroot_path: &str) -> (r: Vec<String>)
    ensures
        r.deep_view() == spec_os_init_argv(osname@, sysroot_path@),
{
    let mut args: Vec<String> = Vec::new();
    args.push("ostree".to_owned());
    args.push("admin".to_owned());
    args.push("os-init".to_owned());
    args.push(osname.to_owned());
    let mut sysroot_arg = "--sysroot=".to_owned();
    sysroot_arg.append(sysroot_path);
    args.push(sysroot_arg);
    proof {
        assert_seqs_equal!(args.deep_view(), seq![
            "ostree"@,
            "admin"@,
            "os-init"@,
            osname@,
            "--sysroot="@ + sysroot_path@,
        ]);
    }
    args
}

/// The argument vector that deploys the commit of `refspec` as a bootable
/// root for `osname` under `sysroot_path`.
pub fn deploy(osname: &str, refspec: &str, sysroot_path: &str) -> (r: Vec<String>)
    ensures
        r.deep_view() == spec_deploy_argv(osname@, refspec@, sysroot_path@),
{
    let mut args: Vec<String> = Vec::new();
    args.push("ostree".to_owned());
    args.push("admin".to_owned());
    args.push("deploy".to_owned());
    args.push(refspec.to_owned());
    let mut sysroot_arg = "--sysroot=".to_owned();
    sysroot_arg.append(sysroot_path);
    args.push(sysroot_arg);
    let mut os_arg = "--os=".to_owned();
    os_arg.append(osname);
    args.push(os_arg);
    proof {
        assert_seqs_equal!(args.deep_view(), seq![
            "ostree"@,
            "admin"@,
            "deploy"@,
            refspec@,
            "--sysroot="@ + sysroot_path@,
            "--os="@ + osname@,
        ]);
    }
    args
}

} // verus!

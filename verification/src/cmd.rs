//! Classification of external-command outcomes.
//!
//! The library never spawns a process itself: the surrounding binary runs the
//! command and reports what happened as a [`ProcessStatus`] (exit status only)
//! or a [`ProcessOutput`] (exit status plus captured text). The functions here
//! turn those reports into the typed error taxonomy that every pipeline stage
//! propagates.

use crate::strutil;
use vstd::prelude::*;

verus! {

/// How an external command failed.
#[derive(Debug, Clone, PartialEq)]
pub enum CommandError {
    /// The executable could not be started; carries the command name and the
    /// spawn error's text.
    ExecFailed(String, String),
    /// The command ran and exited with this non-zero code.
    CommandExited(i32),
    /// The command was terminated by a signal and has no exit code.
    ProcessTerminated,
    /// The command exited unsuccessfully; carries the command name and its
    /// trimmed standard-error text.
    CommandFailed(String, String),
    /// A failure of the runner itself, reported as text.
    InternalError(String),
}

pub type CommandResult<T> = Result<T, CommandError>;

/// The user-facing description of a command failure.
pub open spec fn spec_command_error_message(e: &CommandError) -> Seq<char> {
    match e {
        CommandError::ExecFailed(name, text) => "Command "@ + name@ + " failed to start: "@
            + text@,
        CommandError::CommandExited(code) => "Command exited with: "@ + strutil::spec_dec_signed(
            *code as int,
        ),
        CommandError::ProcessTerminated => "Process terminated by signal"@,
        CommandError::CommandFailed(name, text) => "Command "@ + name@
            + " exited unsucessfully with stderr: "@ + text@,
        CommandError::InternalError(text) => "Internal Error: "@ + text@,
    }
}

impl CommandError {
    /// Renders the failure for the user, exactly as
    /// [`spec_command_error_message`] describes it.
    pub fn message(&self) -> (r: String)
        ensures
            r@ == spec_command_error_message(self),
    {
        match self {
            CommandError::ExecFailed(name, text) => {
                let mut m = "Command ".to_owned();
                m.append(name.as_str());
                m.append(" failed to start: ");
                m.append(text.as_str());
                m
            },
            CommandError::CommandExited(code) => {
                let mut m = "Command exited with: ".to_owned();
                let digits = strutil::i32_to_string(*code);
                m.append(digits.as_str());
                m
            },
            CommandError::ProcessTerminated => "Process terminated by signal".to_owned(),
            CommandError::CommandFailed(name, text) => {
                let mut m = "Command ".to_owned();
                m.append(name.as_str());
                m.append(" exited unsucessfully with stderr: ");
                m.append(text.as_str());
                m
            },
            CommandError::InternalError(text) => {
                let mut m = "Internal Error: ".to_owned();
                m.append(text.as_str());
                m
            },
        }
    }
}

/// The exit status of a finished process: whether it succeeded, and its exit
/// code when it was not terminated by a signal.
#[derive(Debug, Clone, Copy)]
pub struct ProcessStatus {
    pub success: bool,
    pub code: Option<i32>,
}

/// The exit status of a finished process together with its captured standard
/// output and standard error, decoded to text.
#[derive(Debug, Clone)]
pub struct ProcessOutput {
    pub success: bool,
    pub stdout: String,
    pub stderr: String,
}

/// Classifies a bare exit status: success, a carried exit code, or
/// termination by signal.
pub fn result_from_status(status: ProcessStatus) -> (r: CommandResult<()>)
    ensures
        status.success ==> r == CommandResult::<()>::Ok(()),
        !status.success ==> match status.code {
            Some(code) => r == CommandResult::<()>::Err(CommandError::CommandExited(code)),
            None => r == CommandResult::<()>::Err(CommandError::ProcessTerminated),
        },
{
    if !status.success {
        match status.code {
            Some(code) => Err(CommandError::CommandExited(code)),
            None => Err(CommandError::ProcessTerminated),
        }
    } else {
        Ok(())
    }
}

/// Classifies a captured run of `command`: success, or a failure carrying the
/// trimmed standard-error text.
pub fn result_from_output(output: &ProcessOutput, command: &str) -> (r: CommandResult<()>)
    ensures
        output.success ==> r == CommandResult::<()>::Ok(()),
        !output.success ==> match r {
            Err(CommandError::CommandFailed(name, err)) => name@ == command@ && err@
                == strutil::spec_trim(output.stderr@),
            _ => false,
        },
{
    if !output.success {
        Err(CommandError::CommandFailed(command.to_owned(), strutil::trim(output.stderr.as_str())))
    } else {
        Ok(())
    }
}

/// Classifies a captured run of `command`, handing back its trimmed standard
/// output on success and the trimmed standard error on failure.
pub fn string_result_from_output(output: &ProcessOutput, command: &str) -> (r: CommandResult<
    String,
>)
    ensures
        output.success ==> match r {
            Ok(out) => out@ == strutil::spec_trim(output.stdout@),
            _ => false,
        },
        !output.success ==> match r {
            Err(CommandError::CommandFailed(name, err)) => name@ == command@ && err@
                == strutil::spec_trim(output.stderr@),
            _ => false,
        },
{
    if !output.success {
        Err(CommandError::CommandFailed(command.to_owned(), strutil::trim(output.stderr.as_str())))
    } else {
        Ok(strutil::trim(output.stdout.as_str()))
    }
}

} // verus!

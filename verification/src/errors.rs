use vstd::prelude::*;
use crate::decimal::spec_decimal_int;
use crate::decimal::decimal_i32;
use crate::status::StageStatus;

verus! {

/// The single failure a pipeline run can end with. Every variant names
/// the offending command by its literal text; operating-system errors are
/// carried as their rendered text.
#[derive(Clone, Debug)]
pub enum XcoprError {
    /// The operating system failed to launch a stage's process.
    SubprocSpawnFailed { command: String, source: String },
    /// The operating system failed while waiting on a stage.
    SubprocWaitFailed { command: String, source: String },
    /// A stage terminated with a non-success status.
    SubprocExitError { command: String, status: StageStatus },
    /// A non-final stage's output could not be captured as a pipe.
    SubprocStdoutNotCaptured(String),
    /// The command sequence was empty; carries the name of the absent input.
    MissingArgs(&'static str),
}

/// The one human-readable line that describes an error.
pub open spec fn spec_message(e: XcoprError) -> Seq<char> {
    match e {
        XcoprError::SubprocSpawnFailed { command, source } => "failed to start subprocess `"@
            + command@ + "`: "@ + source@,
        XcoprError::SubprocWaitFailed { command, source } => "failed to wait on subprocess `"@
            + command@ + "`: "@ + source@,
        XcoprError::SubprocExitError { command, status } => match status.code {
            Some(c) => "subprocess `"@ + command@ + "` failed with exit status "@
                + spec_decimal_int(c as int),
            None => "subprocess `"@ + command@ + "` was stopped before exiting"@,
        },
        XcoprError::SubprocStdoutNotCaptured(command) => "stdout not captured for `"@ + command@
            + "`"@,
        XcoprError::MissingArgs(arg) => "missing required argument: "@ + arg@,
    }
}

impl XcoprError {
    /// Renders the error as its one-line, human-readable message.
    pub fn message(&self) -> (r: String)
        ensures
            r@ == spec_message(*self),
    {
        match self {
            XcoprError::SubprocSpawnFailed { command, source } => {
                let mut s = String::from_str("failed to start subprocess `");
                s.append(command.as_str());
                s.append("`: ");
                s.append(source.as_str());
                s
            },
            XcoprError::SubprocWaitFailed { command, source } => {
                let mut s = String::from_str("failed to wait on subprocess `");
                s.append(command.as_str());
                s.append("`: ");
                s.append(source.as_str());
                s
            },
            XcoprError::SubprocExitError { command, status } => {
                match status.code {
                    Some(c) => {
                        let mut s = String::from_str("subprocess `");
                        s.append(command.as_str());
                        s.append("` failed with exit status ");
                        let digits = decimal_i32(c);
                        s.append(digits.as_str());
                        s
                    },
                    None => {
                        let mut s = String::from_str("subprocess `");
                        s.append(command.as_str());
                        s.append("` was stopped before exiting");
                        s
                    },
                }
            },
            XcoprError::SubprocStdoutNotCaptured(command) => {
                let mut s = String::from_str("stdout not captured for `");
                s.append(command.as_str());
                s.append("`");
                s
            },
            XcoprError::MissingArgs(arg) => {
                let mut s = String::from_str("missing required argument: ");
                s.append(arg);
                s
            },
        }
    }
}

} // verus!

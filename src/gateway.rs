//! The seam through which every external program is run.

use vstd::prelude::*;
use vstd::string::*;
use crate::text::{decimal_text, decode_lossy, lossy_text, status_text};

verus! {

/// What a process that was started handed back. `status` is `None` when the
/// process could not be waited on, which is not the same as a failing exit.
pub struct ProcessOutput {
    pub status: Option<i32>,
    pub stdout: Vec<u8>,
    pub stderr: Vec<u8>,
}

/// A fully specified invocation of an external program.
pub struct CommandSpec {
    pub program: String,
    pub args: Vec<String>,
    pub envs: Vec<(String, String)>,
}

/// The mathematical value of a [`CommandSpec`].
pub struct CommandView {
    pub program: Seq<char>,
    pub args: Seq<Seq<char>>,
    pub envs: Seq<(Seq<char>, Seq<char>)>,
}

impl View for CommandSpec {
    type V = CommandView;

    open spec fn view(&self) -> CommandView {
        CommandView {
            program: self.program@,
            args: self.args.deep_view(),
            envs: self.envs.deep_view(),
        }
    }
}

/// Runs external programs. The production implementation spawns processes;
/// tests substitute a scripted one.
pub trait CommandExecutor {
    /// Runs `cmd` with `args` and `envs`; `Err` when it could not be started.
    fn execute(&self, cmd: &str, args: Vec<String>, envs: Vec<(String, String)>) -> Result<
        ProcessOutput,
        String,
    >;
}

/// The text view of a result of strings.
pub open spec fn text_result(r: Result<String, String>) -> Result<Seq<char>, Seq<char>> {
    match r {
        Ok(s) => Ok(s@),
        Err(e) => Err(e@),
    }
}

/// Whether the program ran and exited with status 0.
pub open spec fn exited_zero(outcome: Result<ProcessOutput, String>) -> bool {
    outcome is Ok && outcome->Ok_0.status == Some(0i32)
}

/// The message for a run that did not exit with status 0: the executor's own
/// message when the program could not be started; otherwise `failed` with the
/// status and the standard error, or `unwaited` with the standard error when
/// there is no status.
pub open spec fn run_error(
    outcome: Result<ProcessOutput, String>,
    failed: Seq<char>,
    unwaited: Seq<char>,
) -> Seq<char> {
    match outcome {
        Err(e) => e@,
        Ok(out) => match out.status {
            Some(s) => failed + " (status: "@ + decimal_text(s as int) + ")\nError: "@
                + lossy_text(out.stderr@),
            None => unwaited + lossy_text(out.stderr@),
        },
    }
}

/// What one run of a command comes to: its standard output on exit status 0,
/// else the message of [`run_error`].
pub open spec fn run_result(
    outcome: Result<ProcessOutput, String>,
    failed: Seq<char>,
    unwaited: Seq<char>,
) -> Result<Seq<char>, Seq<char>> {
    if exited_zero(outcome) {
        Ok(lossy_text(outcome->Ok_0.stdout@))
    } else {
        Err(run_error(outcome, failed, unwaited))
    }
}

/// Whether the program ran and exited with status 0.
pub fn succeeded(outcome: &Result<ProcessOutput, String>) -> (r: bool)
    ensures
        r == exited_zero(*outcome),
{
    match outcome {
        Ok(out) => match out.status {
            Some(s) => s == 0,
            None => false,
        },
        Err(_) => false,
    }
}

/// The message of a run that did not exit with status 0, see [`run_error`].
pub fn failure_text(outcome: &Result<ProcessOutput, String>, failed: &str, unwaited: &str) -> (r:
    String)
    ensures
        r@ == run_error(*outcome, failed@, unwaited@),
{
    match outcome {
        Err(e) => e.clone(),
        Ok(out) => match out.status {
            Some(s) => {
                let mut msg = String::from_str(failed);
                msg.append(" (status: ");
                msg.append(status_text(s).as_str());
                msg.append(")\nError: ");
                msg.append(decode_lossy(out.stderr.as_slice()).as_str());
                msg
            },
            None => {
                let mut msg = String::from_str(unwaited);
                msg.append(decode_lossy(out.stderr.as_slice()).as_str());
                msg
            },
        },
    }
}

/// Interprets the outcome of one run as described by [`run_result`].
pub fn interpret_run(outcome: Result<ProcessOutput, String>, failed: &str, unwaited: &str) -> (r:
    Result<String, String>)
    ensures
        text_result(r) == run_result(outcome, failed@, unwaited@),
{
    if succeeded(&outcome) {
        match outcome {
            Ok(out) => Ok(decode_lossy(out.stdout.as_slice())),
            Err(e) => Err(e),
        }
    } else {
        Err(failure_text(&outcome, failed, unwaited))
    }
}

} // verus!

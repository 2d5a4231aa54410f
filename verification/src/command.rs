//! What is handed to, and what comes back from, the runner of external
//! programs. Running a program is the caller's business; this module fixes
//! the shape of a request and the reading of a result.

use vstd::prelude::*;
use crate::text::{decode_lossy, lossy_text};

verus! {

/// A program to run with its argument vector. The arguments are passed as
/// they stand: no shell reads them.
#[derive(Debug, PartialEq, Eq)]
pub struct Invocation {
    pub program: String,
    pub args: Vec<String>,
}

/// The mathematical content of an [`Invocation`].
pub struct InvocationModel {
    pub program: Seq<char>,
    pub args: Seq<Seq<char>>,
}

impl View for Invocation {
    type V = InvocationModel;

    open spec fn view(&self) -> InvocationModel {
        InvocationModel { program: self.program@, args: self.args.deep_view() }
    }
}

/// What a program that ran to completion left behind: both output streams in
/// full, and its exit code where it exited by itself.
#[derive(Debug, PartialEq, Eq)]
pub struct CommandOutput {
    pub stdout: Vec<u8>,
    pub stderr: Vec<u8>,
    pub exit_code: Option<i32>,
}

/// The mathematical content of a [`CommandOutput`].
pub struct OutputModel {
    pub stdout: Seq<u8>,
    pub stderr: Seq<u8>,
    pub exit_code: Option<i32>,
}

impl OutputModel {
    /// A run succeeded when the program exited with code zero.
    pub open spec fn succeeded(self) -> bool {
        self.exit_code == Some(0i32)
    }
}

impl View for CommandOutput {
    type V = OutputModel;

    open spec fn view(&self) -> OutputModel {
        OutputModel { stdout: self.stdout@, stderr: self.stderr@, exit_code: self.exit_code }
    }
}

impl CommandOutput {
    /// Whether the program exited with code zero. A non-zero code is not by
    /// itself a failure of the run: what it means is for the caller to say.
    pub fn success(&self) -> (ok: bool)
        ensures
            ok == self@.succeeded(),
    {
        match self.exit_code {
            Some(code) => code == 0,
            None => false,
        }
    }

    /// The standard output as text.
    pub fn stdout_text(&self) -> (text: String)
        ensures
            text@ == lossy_text(self@.stdout),
    {
        decode_lossy(&self.stdout)
    }

    /// The standard error stream as text.
    pub fn stderr_text(&self) -> (text: String)
        ensures
            text@ == lossy_text(self@.stderr),
    {
        decode_lossy(&self.stderr)
    }
}

/// The program could not be started: it is missing, not executable, or the
/// system refused. `detail` is the system's account of it.
#[derive(Debug, PartialEq, Eq)]
pub struct SpawnError {
    pub detail: String,
}

/// The mathematical content of what a run reports: the output of a program
/// that ran, or the detail of why it did not start.
pub open spec fn run_model(report: Result<CommandOutput, SpawnError>) -> Result<
    OutputModel,
    Seq<char>,
> {
    match report {
        Ok(output) => Ok(output@),
        Err(e) => Err(e.detail@),
    }
}

/// Appends one argument to an argument vector.
pub fn push_arg(args: &mut Vec<String>, arg: String)
    ensures
        final(args).deep_view() == old(args).deep_view().push(arg@),
{
    args.push(arg);
    assert(args.deep_view() =~= old(args).deep_view().push(arg@));
}

} // verus!

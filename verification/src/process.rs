//! The gateway to outside programs: what the library asks to be run, and
//! what it is told of the run.

use crate::git::GitError;
use crate::text::{trim, trimmed};
use vstd::prelude::*;

verus! {

/// A program to run: its arguments, the directory to run it in, and the
/// variables to add to its environment.
#[derive(Debug)]
pub struct CommandLine {
    pub program: String,
    pub args: Vec<String>,
    pub working_dir: String,
    pub env: Vec<(String, String)>,
}

/// A command line as plain text.
pub struct CommandLineView {
    pub program: Seq<char>,
    pub args: Seq<Seq<char>>,
    pub working_dir: Seq<char>,
    pub env: Seq<(Seq<char>, Seq<char>)>,
}

impl View for CommandLine {
    type V = CommandLineView;

    open spec fn view(&self) -> CommandLineView {
        CommandLineView {
            program: self.program@,
            args: self.args.deep_view(),
            working_dir: self.working_dir@,
            env: self.env.deep_view(),
        }
    }
}

/// How the run of a program ended.
#[derive(Debug)]
pub enum ProcessOutcome {
    /// The program could not be started; the text says why.
    NotStarted(String),
    /// The program ran and exited. `success` tells whether its exit status
    /// was zero; `stdout` and `stderr` hold what it wrote.
    Exited { success: bool, stdout: String, stderr: String },
}

/// The outcome of a run as plain text.
pub enum ProcessOutcomeView {
    NotStarted(Seq<char>),
    Exited { success: bool, stdout: Seq<char>, stderr: Seq<char> },
}

impl View for ProcessOutcome {
    type V = ProcessOutcomeView;

    open spec fn view(&self) -> ProcessOutcomeView {
        match self {
            ProcessOutcome::NotStarted(reason) => ProcessOutcomeView::NotStarted(reason@),
            ProcessOutcome::Exited { success, stdout, stderr } => ProcessOutcomeView::Exited {
                success: *success,
                stdout: stdout@,
                stderr: stderr@,
            },
        }
    }
}

impl ProcessOutcomeView {
    /// Whether the program ran and exited with status zero.
    pub open spec fn succeeded(self) -> bool {
        self matches ProcessOutcomeView::Exited { success, .. } && success
    }
}

/// What a run of git yields: its trimmed output if it exited with status
/// zero, else the message of the failure, which is its trimmed error
/// output, or the reason why it could not be started.
pub open spec fn git_outcome(outcome: ProcessOutcomeView) -> Result<Seq<char>, Seq<char>> {
    match outcome {
        ProcessOutcomeView::NotStarted(reason) => Err("Failed to execute git: "@ + reason),
        ProcessOutcomeView::Exited { success, stdout, stderr } => if success {
            Ok(trim(stdout))
        } else {
            Err(trim(stderr))
        },
    }
}

/// The result of a run of git, for the caller of the command.
pub fn git_result(outcome: &ProcessOutcome) -> (result: Result<String, GitError>)
    ensures
        match result {
            Ok(output) => git_outcome(outcome@) == Ok::<Seq<char>, Seq<char>>(output@),
            Err(error) => git_outcome(outcome@) == Err::<Seq<char>, Seq<char>>(error.message@),
        },
{
    match outcome {
        ProcessOutcome::NotStarted(reason) => {
            let mut message = "Failed to execute git: ".to_owned();
            message.append(reason.as_str());
            Err(GitError { message })
        },
        ProcessOutcome::Exited { success, stdout, stderr } => {
            if *success {
                Ok(trimmed(stdout.as_str()))
            } else {
                Err(GitError { message: trimmed(stderr.as_str()) })
            }
        },
    }
}

/// The command line that runs git with `args` in `working_dir`.
pub fn git_command(working_dir: &str, args: Vec<String>) -> (command: CommandLine)
    ensures
        command@ == (CommandLineView {
            program: "git"@,
            args: args.deep_view(),
            working_dir: working_dir@,
            env: Seq::empty(),
        }),
{
    let env: Vec<(String, String)> = Vec::new();
    assert(env.deep_view() =~= Seq::<(Seq<char>, Seq<char>)>::empty());
    CommandLine { program: "git".to_owned(), args, working_dir: working_dir.to_owned(), env }
}

} // verus!

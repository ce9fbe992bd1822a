//! The command model: a program with its arguments, what running it
//! produced, and how a run is classified as success or failure.
//!
//! The library never spawns a process.  It states which command to run; the
//! binary spawns it and hands back a [`RunOutcome`], and the functions here
//! decide what that outcome means.

use vstd::prelude::*;
use vstd::string::StringExecFns;

use crate::bytes::{bytes_to_string_lossy, copy_string, lossy_of};
use crate::error::{error_matches, ErrShape, Error};

verus! {

/// A command line: the program to spawn and its arguments, in order.
#[derive(Debug, PartialEq, Eq)]
pub struct CommandLine {
    pub program: String,
    pub args: Vec<String>,
}

/// What one spawned process produced: its exit code (`None` when it was
/// terminated by a signal) and its captured output streams, as raw bytes.
#[derive(Debug, PartialEq, Eq)]
pub struct CommandOutput {
    pub code: Option<i32>,
    pub stdout: Vec<u8>,
    pub stderr: Vec<u8>,
}

/// What spawning a command led to: the process could not be started at
/// all, or it ran to completion with some output.
#[derive(Debug, PartialEq, Eq)]
pub enum RunOutcome {
    SpawnFailed { os_error: String },
    Ran { output: CommandOutput },
}

/// The words of a command line: the program followed by its arguments.
pub open spec fn words_of(c: CommandLine) -> Seq<Seq<char>> {
    seq![c.program@] + c.args@.map_values(|a: String| a@)
}

/// Words joined by single spaces.
pub open spec fn joined(words: Seq<Seq<char>>) -> Seq<char>
    decreases words.len(),
{
    if words.len() == 0 {
        Seq::empty()
    } else if words.len() == 1 {
        words[0]
    } else {
        joined(words.drop_last()) + " "@ + words.last()
    }
}

/// How a command line is displayed, in diagnostics and in errors.
pub open spec fn command_string_of(c: CommandLine) -> Seq<char> {
    joined(words_of(c))
}

/// How a completed run is read, stated over the command's words: a zero
/// exit code yields the captured standard output; anything else is the
/// error the caller sees.
pub open spec fn run_words_model(words: Seq<Seq<char>>, outcome: RunOutcome) -> Result<
    Seq<u8>,
    ErrShape,
> {
    match outcome {
        RunOutcome::SpawnFailed { os_error } => Err(
            ErrShape::Spawn { command: joined(words), os_error: os_error@ },
        ),
        RunOutcome::Ran { output } => if output.code == Some(0i32) {
            Ok(output.stdout@)
        } else {
            Err(
                ErrShape::NotSuccess {
                    command: joined(words),
                    code: output.code,
                    stderr: lossy_of(output.stderr@),
                },
            )
        },
    }
}

/// [`run_words_model`] applied to a command line value.
pub open spec fn run_model(c: CommandLine, outcome: RunOutcome) -> Result<Seq<u8>, ErrShape> {
    run_words_model(words_of(c), outcome)
}

impl CommandLine {
    /// The program and arguments joined by spaces.
    pub fn to_command_string(&self) -> (r: String)
        ensures
            r@ == command_string_of(*self),
    {
        let ghost words = words_of(*self);
        let mut s = copy_string(&self.program);
        proof {
            assert(words.take(1) =~= seq![self.program@]);
            assert(s@ == joined(words.take(1)));
        }
        let n: usize = self.args.len();
        let mut i: usize = 0;
        while i < n
            invariant
                i <= n,
                n == self.args@.len(),
                words == words_of(*self),
                words.len() == n + 1,
                s@ == joined(words.take(1 + i as int)),
            decreases n - i,
        {
            s.append(" ");
            s.append(self.args[i].as_str());
            proof {
                reveal_strlit(" ");
                let k = 1 + i as int;
                assert(words.take(k + 1).drop_last() =~= words.take(k));
                assert(words.take(k + 1).last() == words[k]);
                assert(words[k] == self.args@.map_values(|a: String| a@)[i as int]);
                assert(" "@ =~= seq![' ']);
                assert(s@ =~= joined(words.take(k + 1)));
            }
            i = i + 1;
        }
        proof {
            assert(words.take(1 + n as int) =~= words);
        }
        s
    }
}

/// Classifies what spawning `cmd` led to: a spawn failure becomes the
/// spawn error; a completed run hands the output through, whatever its
/// exit status.
pub fn run_result(cmd: &CommandLine, outcome: RunOutcome) -> (r: Result<CommandOutput, Error>)
    ensures
        match outcome {
            RunOutcome::SpawnFailed { os_error } => r matches Err(e) && error_matches(
                e,
                (ErrShape::Spawn { command: command_string_of(*cmd), os_error: os_error@ }),
            ),
            RunOutcome::Ran { output } => r matches Ok(o) && o == output,
        },
{
    match outcome {
        RunOutcome::SpawnFailed { os_error } => Err(
            Error::SpawnChildProcess { command: cmd.to_command_string(), os_error },
        ),
        RunOutcome::Ran { output } => Ok(output),
    }
}

/// Classifies a run and additionally requires success: returns the captured
/// standard output only for a zero exit code, and otherwise exactly the
/// error [`run_model`] gives.
pub fn try_into_stdout(cmd: &CommandLine, outcome: RunOutcome) -> (r: Result<Vec<u8>, Error>)
    ensures
        match run_model(*cmd, outcome) {
            Ok(b) => r matches Ok(v) && v@ == b,
            Err(s) => r matches Err(e) && error_matches(e, s),
        },
{
    match outcome {
        RunOutcome::SpawnFailed { os_error } => Err(
            Error::SpawnChildProcess { command: cmd.to_command_string(), os_error },
        ),
        RunOutcome::Ran { output } => {
            let success = match output.code {
                Some(c) => c == 0,
                None => false,
            };
            if success {
                Ok(output.stdout)
            } else {
                let stderr = bytes_to_string_lossy(output.stderr.as_slice());
                Err(
                    Error::CommandNotSuccess {
                        command: cmd.to_command_string(),
                        code: output.code,
                        stderr,
                    },
                )
            }
        },
    }
}

/// The decision of one patch invocation: like [`try_into_stdout`], but
/// over a borrowed outcome and without the output payload.
pub fn require_success(cmd: &CommandLine, outcome: &RunOutcome) -> (r: Result<(), Error>)
    ensures
        match run_model(*cmd, *outcome) {
            Ok(_) => r is Ok,
            Err(s) => r matches Err(e) && error_matches(e, s),
        },
{
    match outcome {
        RunOutcome::SpawnFailed { os_error } => Err(
            Error::SpawnChildProcess {
                command: cmd.to_command_string(),
                os_error: copy_string(os_error),
            },
        ),
        RunOutcome::Ran { output } => {
            let success = match output.code {
                Some(c) => c == 0,
                None => false,
            };
            if success {
                Ok(())
            } else {
                let stderr = bytes_to_string_lossy(output.stderr.as_slice());
                Err(
                    Error::CommandNotSuccess {
                        command: cmd.to_command_string(),
                        code: output.code,
                        stderr,
                    },
                )
            }
        },
    }
}

} // verus!

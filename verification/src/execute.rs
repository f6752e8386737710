//! Code execution: validation of executability, planning of the interpreter
//! invocation, and the shared execution state record that the background
//! worker fills in and observers snapshot.
//!
//! The worker itself (temporary file, child process, reader thread) runs
//! outside this crate; it drives the state record exclusively through the
//! append operations and [`ExecutionState::finish`], whose contracts give
//! every observer the append-only, single-transition ordering guarantees
//! stated by [`may_follow`].

use vstd::prelude::*;
use crate::code::{Code, CodeLanguage};

verus! {

/// The status of a process.
#[derive(Clone, Copy, Debug, PartialEq, Eq, Structural)]
pub enum ProcessStatus {
    Running,
    Success,
    Failure,
}

impl ProcessStatus {
    /// True exactly on the two terminal statuses.
    pub open spec fn spec_is_finished(&self) -> bool {
        self is Success || self is Failure
    }

    /// Check whether the underlying process is finished.
    pub fn is_finished(&self) -> (r: bool)
        ensures
            r == self.spec_is_finished(),
    {
        matches!(self, ProcessStatus::Success | ProcessStatus::Failure)
    }
}

impl Default for ProcessStatus {
    /// A fresh execution starts out running.
    fn default() -> (r: Self)
        ensures
            r is Running,
    {
        ProcessStatus::Running
    }
}

/// The state of the execution of a process: the output lines captured so far,
/// in arrival order, and the current lifecycle status.
#[derive(Debug)]
pub struct ExecutionState {
    /// The lines the process wrote to its standard output, in order.
    pub output: Vec<String>,
    /// The current lifecycle status.
    pub status: ProcessStatus,
}

/// The views of a sequence of text lines, in order.
pub open spec fn line_views(strings: Seq<String>) -> Seq<Seq<char>> {
    strings.map_values(|s: String| s@)
}

/// How a later observation of one execution may relate to an earlier one:
/// the earlier output is a prefix of the later output, and once a terminal
/// status has been observed nothing changes any more.
pub open spec fn may_follow(earlier: ExecutionState, later: ExecutionState) -> bool {
    &&& earlier.lines().is_prefix_of(later.lines())
    &&& earlier.status.spec_is_finished() ==> {
        &&& later.lines() == earlier.lines()
        &&& later.status == earlier.status
    }
}

impl ExecutionState {
    /// The captured output as a sequence of character sequences.
    pub open spec fn lines(&self) -> Seq<Seq<char>> {
        line_views(self.output@)
    }

    /// Create the state of a freshly spawned execution: no output, running.
    pub fn new() -> (r: Self)
        ensures
            r.lines() == Seq::<Seq<char>>::empty(),
            r.status is Running,
    {
        let r = ExecutionState { output: Vec::new(), status: ProcessStatus::Running };
        proof {
            assert(r.lines() =~= Seq::<Seq<char>>::empty());
        }
        r
    }

    /// Append one decoded output line.
    ///
    /// The worker appends lines only while the execution is still running:
    /// the terminal status is published strictly after the last append.
    pub fn push_line(&mut self, line: String)
        requires
            old(self).status is Running,
        ensures
            final(self).lines() == old(self).lines().push(line@),
            final(self).status == old(self).status,
            may_follow(*old(self), *final(self)),
    {
        self.output.push(line);
        proof {
            assert(self.lines() =~= old(self).lines().push(line@));
            assert(old(self).lines() =~= self.lines().subrange(
                0,
                old(self).lines().len() as int,
            ));
        }
    }

    /// Append a batch of decoded output lines, in order.
    ///
    /// A worker may batch lines before taking the lock instead of appending
    /// one by one; either way the strict append order is preserved.
    pub fn push_lines(&mut self, batch: Vec<String>)
        requires
            old(self).status is Running,
        ensures
            final(self).lines() == old(self).lines() + line_views(batch@),
            final(self).status == old(self).status,
            may_follow(*old(self), *final(self)),
    {
        let batch_view = Ghost(line_views(batch@));
        proof {
            assert(old(self).lines() + batch_view@.subrange(0, 0) =~= old(self).lines());
        }
        let mut i: usize = 0;
        while i < batch.len()
            invariant
                i <= batch.len(),
                batch_view@ == line_views(batch@),
                self.status is Running,
                self.status == old(self).status,
                self.lines() == old(self).lines() + batch_view@.subrange(0, i as int),
            decreases batch.len() - i,
        {
            let line = batch[i].clone();
            self.push_line(line);
            proof {
                assert(self.lines() =~= old(self).lines() + batch_view@.subrange(
                    0,
                    i as int + 1,
                ));
            }
            i += 1;
        }
        proof {
            assert(batch_view@.subrange(0, batch@.len() as int) =~= batch_view@);
            assert(old(self).lines() =~= self.lines().subrange(
                0,
                old(self).lines().len() as int,
            ));
        }
    }

    /// Publish the terminal status computed from the child's exit.
    ///
    /// `exit_success` is whether the exit status, if it could be determined
    /// at all, indicates success. Exactly a determined, successful exit
    /// yields `Success`; a non-zero exit and an exit status that could not
    /// be determined both yield `Failure`. The status is never left
    /// `Running` once the child is gone.
    ///
    /// This is the single transition out of `Running`; it happens at most
    /// once per execution, strictly after the last output append.
    pub fn finish(&mut self, exit_success: Option<bool>)
        requires
            old(self).status is Running,
        ensures
            final(self).status == (if exit_success == Some(true) {
                ProcessStatus::Success
            } else {
                ProcessStatus::Failure
            }),
            final(self).status.spec_is_finished(),
            final(self).lines() == old(self).lines(),
            may_follow(*old(self), *final(self)),
    {
        let status = match exit_success {
            Some(true) => ProcessStatus::Success,
            _ => ProcessStatus::Failure,
        };
        self.status = status;
        proof {
            assert(old(self).lines() =~= self.lines().subrange(
                0,
                old(self).lines().len() as int,
            ));
        }
    }
}

impl Clone for ExecutionState {
    /// A value copy of the current state: the snapshot operation that
    /// observers receive. It carries the same output lines and status.
    fn clone(&self) -> (r: Self)
        ensures
            r.lines() == self.lines(),
            r.status == self.status,
    {
        let output = self.output.clone();
        let r = ExecutionState { output, status: self.status };
        proof {
            assert forall|i: int| 0 <= i < r.output@.len() implies r.output@[i]@
                == self.output@[i]@ by {
                assert(cloned::<String>(self.output@[i], r.output@[i]));
            }
            assert(r.lines() =~= self.lines());
        }
        r
    }
}

impl Default for ExecutionState {
    /// Same as [`ExecutionState::new`].
    fn default() -> (r: Self)
        ensures
            r.lines() == Seq::<Seq<char>>::empty(),
            r.status is Running,
    {
        ExecutionState::new()
    }
}

/// Monotonicity of observation: the relation a worker's state passes through
/// is transitive, so of any two snapshots of one execution the earlier one is
/// a prefix of the later one, and a terminal status never changes.
pub proof fn lemma_may_follow_trans(a: ExecutionState, b: ExecutionState, c: ExecutionState)
    requires
        may_follow(a, b),
        may_follow(b, c),
    ensures
        may_follow(a, c),
{
    assert(a.lines() =~= c.lines().subrange(0, a.lines().len() as int));
    if a.status.spec_is_finished() {
        assert(c.lines() == a.lines());
    }
}

/// Idempotence of observation: once a snapshot shows a terminal status, every
/// later snapshot of the same execution shows the same output and status.
pub proof fn lemma_finished_is_stable(a: ExecutionState, b: ExecutionState)
    requires
        may_follow(a, b),
        a.status.spec_is_finished(),
    ensures
        b.lines() == a.lines(),
        b.status == a.status,
        b.status.spec_is_finished(),
{
}

/// An error during the execution of some code.
#[derive(Debug)]
pub enum CodeExecuteError {
    /// The code's language does not support execution.
    UnsupportedExecution,
    /// The code block was not marked for execution.
    NotExecutableCode,
    /// Creating or writing the temporary script file failed.
    TempFile(std::io::Error),
    /// Spawning the interpreter process failed.
    SpawnProcess(std::io::Error),
}

/// The error type of the I/O that materializes and launches a script; it is
/// carried opaquely inside [`CodeExecuteError`].
#[verifier::external_type_specification]
#[verifier::external_body]
pub struct ExIoError(std::io::Error);

/// A planned shell invocation: the interpreter name to hand to the process
/// launcher, and the script text to materialize into a scratch file for it.
#[derive(Clone, Debug)]
pub struct ShellInvocation {
    /// The interpreter executable name declared by the code block.
    pub interpreter: String,
    /// The script text, verbatim.
    pub contents: String,
}

/// The neutral process launcher that resolves an interpreter name from the
/// search path; it is invoked with exactly two arguments, the interpreter
/// name and the scratch file's path.
pub fn process_launcher() -> (r: &'static str)
    ensures
        r@ == "/usr/bin/env"@,
{
    "/usr/bin/env"
}

/// Allows executing code.
pub struct CodeExecuter;

impl CodeExecuter {
    /// Validate a code block against the execution policy and plan its
    /// invocation.
    ///
    /// Exactly the blocks of an execution-capable language that are marked
    /// for execution yield an invocation; it carries the declared interpreter
    /// and the block's contents verbatim. All other blocks are rejected
    /// before any process is spawned: a language without execution support
    /// is rejected regardless of the execute flag, and an unmarked block of
    /// a capable language is rejected regardless of its contents.
    pub fn plan(code: &Code) -> (r: Result<ShellInvocation, CodeExecuteError>)
        ensures
            r is Ok <==> code.language.spec_supports_execution() && code.flags.execute,
            r matches Ok(inv) ==> {
                &&& code.language matches CodeLanguage::Shell(interpreter)
                    && inv.interpreter@ == interpreter@
                &&& inv.contents@ == code.contents@
            },
            r matches Err(e) ==> match e {
                CodeExecuteError::UnsupportedExecution => !code.language.spec_supports_execution(),
                CodeExecuteError::NotExecutableCode => code.language.spec_supports_execution()
                    && !code.flags.execute,
                _ => false,
            },
    {
        if !code.language.supports_execution() {
            return Err(CodeExecuteError::UnsupportedExecution);
        }
        if !code.flags.execute {
            return Err(CodeExecuteError::NotExecutableCode);
        }
        match &code.language {
            CodeLanguage::Shell(interpreter) => Ok(ShellInvocation {
                interpreter: interpreter.clone(),
                contents: code.contents.clone(),
            }),
            _ => Err(CodeExecuteError::UnsupportedExecution),
        }
    }
}

} // verus!

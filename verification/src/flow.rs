//! What a run does next after each read and each write, and the status it
//! ends with.
//!
//! The caller does the reading and writing and reports how each went; the
//! functions here decide how the run goes on.

use vstd::prelude::*;

verus! {

/// How an attempt to read the next line went.
#[derive(Debug, Clone, Copy, PartialEq, Eq, Structural)]
pub enum ReadOutcome {
    /// A line of text was read.
    Line,
    /// A line was read that is not valid text in the expected encoding.
    Undecodable,
    /// The input has ended.
    EndOfInput,
}

/// What to do after an attempt to read.
#[derive(Debug, Clone, Copy, PartialEq, Eq, Structural)]
pub enum ReadStep {
    /// Match the line and print what is found.
    Process,
    /// Drop the line silently and read the next one.
    Skip,
    /// End the run.
    Finish,
}

/// How an attempt to write one line of output went.
#[derive(Debug, Clone, Copy, PartialEq, Eq, Structural)]
pub enum WriteOutcome {
    /// The line was written.
    Written,
    /// The reader at the other end of the output has closed it.
    BrokenPipe,
    /// The write failed for another reason.
    Failed,
}

/// What to do after an attempt to write.
#[derive(Debug, Clone, Copy, PartialEq, Eq, Structural)]
pub enum WriteStep {
    /// Go on with the next output.
    Continue,
    /// End the run at once, as a success.
    Finish,
    /// Give the run up as failed.
    Abort,
}

/// How a run ended.
#[derive(Debug, Clone, Copy, PartialEq, Eq, Structural)]
pub enum Ending {
    /// All input was processed.
    Completed,
    /// The reader of the output closed it before the input ended.
    ConsumerClosed,
    /// The pattern did not compile.
    PatternRefused,
    /// The command line was refused.
    ArgumentsRefused,
}

/// The step that follows a read.
pub open spec fn spec_after_read(outcome: ReadOutcome) -> ReadStep {
    match outcome {
        ReadOutcome::Line => ReadStep::Process,
        ReadOutcome::Undecodable => ReadStep::Skip,
        ReadOutcome::EndOfInput => ReadStep::Finish,
    }
}

/// The step that follows a write. A closed output is no error: the run ends
/// as a success. That holds of this one failure only.
pub open spec fn spec_after_write(outcome: WriteOutcome) -> WriteStep {
    match outcome {
        WriteOutcome::Written => WriteStep::Continue,
        WriteOutcome::BrokenPipe => WriteStep::Finish,
        WriteOutcome::Failed => WriteStep::Abort,
    }
}

/// The exit status of each ending.
pub open spec fn spec_exit_status(ending: Ending) -> u8 {
    match ending {
        Ending::Completed => 0,
        Ending::ConsumerClosed => 0,
        Ending::PatternRefused => 1,
        Ending::ArgumentsRefused => 2,
    }
}

/// Decides what follows a read: a line is processed, a line that is no valid
/// text is skipped, and the end of the input ends the run.
pub fn after_read(outcome: ReadOutcome) -> (step: ReadStep)
    ensures
        step == spec_after_read(outcome),
{
    match outcome {
        ReadOutcome::Line => ReadStep::Process,
        ReadOutcome::Undecodable => ReadStep::Skip,
        ReadOutcome::EndOfInput => ReadStep::Finish,
    }
}

/// Decides what follows a write: only a closed output ends the run as a
/// success; any other failure gives it up.
pub fn after_write(outcome: WriteOutcome) -> (step: WriteStep)
    ensures
        step == spec_after_write(outcome),
{
    match outcome {
        WriteOutcome::Written => WriteStep::Continue,
        WriteOutcome::BrokenPipe => WriteStep::Finish,
        WriteOutcome::Failed => WriteStep::Abort,
    }
}

/// The exit status of an ending: 0 for the two successful ones, 1 for a
/// refused pattern, 2 for a refused command line.
pub fn exit_status(ending: Ending) -> (status: u8)
    ensures
        status == spec_exit_status(ending),
        status == 0 <==> (ending == Ending::Completed || ending == Ending::ConsumerClosed),
{
    match ending {
        Ending::Completed => 0,
        Ending::ConsumerClosed => 0,
        Ending::PatternRefused => 1,
        Ending::ArgumentsRefused => 2,
    }
}

} // verus!

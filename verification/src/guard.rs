//! The output guard: whether an output file that is already there may be
//! overwritten.
//!
//! The guard never touches the file system or the terminal. Its driver looks
//! at the output path, reports what it found as an `ExistingOutput`, asks the
//! operator where the guard says `PromptUser`, and reports the answer.

use crate::text::{contains, contains_text, is_affirmative, says_yes};
use vstd::prelude::*;
use vstd::string::StringExecFns;

verus! {

/// The first line of the preamble, by which the engine knows its own output.
pub const HEADER_MARKER: &'static str =
    "This is a .txt file representing an entire directory's contents.";

/// What the guard decides about an output path.
#[derive(Debug, Clone, Copy, PartialEq, Eq, Structural)]
pub enum OutputDecision {
    /// The output file may be created or overwritten.
    Proceed,
    /// The operator has to confirm the overwrite.
    PromptUser,
    /// The run ends without touching the output file.
    Abort,
}

/// What a look at the output path found.
#[derive(Debug)]
pub enum ExistingOutput {
    /// Nothing is there.
    Absent,
    /// A file whose first line could be read as text. The line is empty only
    /// where the file is.
    Text { first_line: String },
    /// A file whose start is no valid text.
    InvalidEncoding,
    /// A file that could not be read for any other reason; `cause` says
    /// which.
    Unreadable { cause: String },
}

/// The existing output could not be read.
#[derive(Debug, Clone, PartialEq, Eq)]
pub struct UnreadableOutput {
    /// What the inspection gave as the cause.
    pub cause: String,
}

/// The decision before anything is inspected: a forced run proceeds at once,
/// any other run has to inspect the output path first.
pub open spec fn decision_unseen(force: bool) -> Option<OutputDecision> {
    if force {
        Some(OutputDecision::Proceed)
    } else {
        None
    }
}

/// The decision on what the inspection found, `None` where the run fails.
///
/// A missing or empty file, a file that starts with the engine's own header
/// and a file that is no text are overwritten without asking. Any other file
/// needs the operator's word. A file that cannot be read fails the run.
pub open spec fn decision_on(existing: ExistingOutput) -> Option<OutputDecision> {
    match existing {
        ExistingOutput::Absent => Some(OutputDecision::Proceed),
        ExistingOutput::Text { first_line } => if first_line@.len() == 0 || contains_text(
            first_line@,
            HEADER_MARKER@,
        ) {
            Some(OutputDecision::Proceed)
        } else {
            Some(OutputDecision::PromptUser)
        },
        ExistingOutput::InvalidEncoding => Some(OutputDecision::Proceed),
        ExistingOutput::Unreadable { .. } => None,
    }
}

/// The error fits what the inspection found: the file could not be read, and
/// the error carries the cause that the inspection gave.
pub open spec fn reports(error: UnreadableOutput, existing: ExistingOutput) -> bool {
    existing matches ExistingOutput::Unreadable { cause } && error.cause@ == cause@
}

/// The decision on the operator's answer: a `y`, in either case and with
/// white space around it, proceeds; anything else aborts.
pub open spec fn decision_after(answer: Seq<char>) -> OutputDecision {
    if is_affirmative(answer) {
        OutputDecision::Proceed
    } else {
        OutputDecision::Abort
    }
}

/// Whether the whole exchange ends in an overwrite, `None` where it fails.
/// The answer counts only where the operator is asked.
pub open spec fn guard_outcome(force: bool, existing: ExistingOutput, answer: Seq<char>) -> Option<
    bool,
> {
    if force {
        Some(true)
    } else {
        match decision_on(existing) {
            Some(OutputDecision::Proceed) => Some(true),
            Some(OutputDecision::PromptUser) => Some(is_affirmative(answer)),
            Some(OutputDecision::Abort) => Some(false),
            None => None,
        }
    }
}

/// The question put to the operator before `output_path` is overwritten.
pub open spec fn overwrite_prompt_text(output_path: Seq<char>) -> Seq<char> {
    "Output file '"@ + output_path + "' already exists and contains data. Overwrite? (y/n): "@
}

/// The first step of the guard. `Some` ends it: nothing is to be inspected.
/// `None` asks for an inspection of the output path.
pub fn begin(force: bool) -> (decision: Option<OutputDecision>)
    ensures
        decision == decision_unseen(force),
{
    if force {
        Some(OutputDecision::Proceed)
    } else {
        None
    }
}

/// The second step of the guard, on what the inspection found: `Proceed`,
/// `PromptUser`, or the failure of the run.
pub fn decide(existing: &ExistingOutput) -> (decision: Result<OutputDecision, UnreadableOutput>)
    ensures
        match decision {
            Ok(d) => decision_on(*existing) == Some(d),
            Err(error) => decision_on(*existing) is None && reports(error, *existing),
        },
{
    match existing {
        ExistingOutput::Absent => Ok(OutputDecision::Proceed),
        ExistingOutput::Text { first_line } => {
            if first_line.as_str().is_empty() || contains(first_line.as_str(), HEADER_MARKER) {
                Ok(OutputDecision::Proceed)
            } else {
                Ok(OutputDecision::PromptUser)
            }
        },
        ExistingOutput::InvalidEncoding => Ok(OutputDecision::Proceed),
        ExistingOutput::Unreadable { cause } => Err(UnreadableOutput { cause: cause.clone() }),
    }
}

/// The last step of the guard, on the operator's answer: `Proceed` or
/// `Abort`.
pub fn confirm(answer: &str) -> (decision: OutputDecision)
    ensures
        decision == decision_after(answer@),
{
    if says_yes(answer) {
        OutputDecision::Proceed
    } else {
        OutputDecision::Abort
    }
}

/// The question to put to the operator before `output_path` is overwritten.
pub fn overwrite_prompt(output_path: &str) -> (prompt: String)
    ensures
        prompt@ == overwrite_prompt_text(output_path@),
{
    let mut prompt = String::from_str("Output file '");
    prompt.append(output_path);
    prompt.append("' already exists and contains data. Overwrite? (y/n): ");
    prompt
}

/// The three steps in one, for a driver that has the inspection and the
/// answer at hand: whether the output may be overwritten. A forced run
/// proceeds whatever `existing` and `answer` hold, and `answer` is read only
/// where the decision on `existing` is `PromptUser`.
pub fn resolve(force: bool, existing: &ExistingOutput, answer: &str) -> (outcome: Result<
    bool,
    UnreadableOutput,
>)
    ensures
        match outcome {
            Ok(overwrite) => guard_outcome(force, *existing, answer@) == Some(overwrite),
            Err(error) => guard_outcome(force, *existing, answer@) is None && reports(
                error,
                *existing,
            ),
        },
{
    match begin(force) {
        Some(_) => Ok(true),
        None => match decide(existing) {
            Ok(OutputDecision::Proceed) => Ok(true),
            Ok(OutputDecision::PromptUser) => match confirm(answer) {
                OutputDecision::Proceed => Ok(true),
                _ => Ok(false),
            },
            Ok(OutputDecision::Abort) => Ok(false),
            Err(error) => Err(error),
        },
    }
}

} // verus!

//! Appending text to a file, with a fallback file for a path that cannot be
//! opened.
//!
//! The appender decides, the caller acts: the caller carries out the step
//! it is given (open a file, create the fallback file, write the content)
//! and reports how that ended; [`next_step`] answers with the step that
//! follows, until the step is [`AppendStep::Done`].

use crate::error::{open_error, Fault, IoError};
use vstd::prelude::*;

verus! {

/// The file that a step works on.
#[derive(Clone, Copy, Debug, PartialEq, Eq, Structural)]
pub enum Target {
    /// The file at the path that the caller named.
    Named,
    /// The fallback file.
    Fallback,
}

/// What the caller is to do next.
#[derive(Clone, Copy, Debug, PartialEq, Eq)]
pub enum AppendStep {
    /// Open the target for appending and reading.
    Open(Target),
    /// Make sure that the fallback file is there: create it, empty, where
    /// it is absent, and leave one that is there as it is.
    CreateFallback,
    /// Write all of the content to the end of the target, which is open.
    Write(Target),
    /// Nothing more: the content went to the file given, or the append
    /// failed with the error given.
    Done(Result<Target, IoError>),
}

/// The name of the fallback file.
pub open spec fn fallback_name() -> Seq<char> {
    "TestFile.txt"@
}

/// The name of the file that `target` stands for when the caller has named
/// `path`.
pub open spec fn target_name(target: Target, path: Seq<char>) -> Seq<char> {
    match target {
        Target::Named => path,
        Target::Fallback => fallback_name(),
    }
}

/// The step that follows `step` once it has ended with `outcome`.
///
/// A path that opens is written to. A path that does not open, for
/// whatever reason, sends the appender to the fallback file: it is created
/// where it is absent, then opened whether or not that succeeded, then
/// written to. Only a fallback file that does not open, or a write that
/// fails, ends the append with an error.
pub open spec fn next(step: AppendStep, outcome: Result<(), Fault>) -> AppendStep {
    match step {
        AppendStep::Open(Target::Named) => match outcome {
            Ok(_) => AppendStep::Write(Target::Named),
            Err(_) => AppendStep::CreateFallback,
        },
        AppendStep::CreateFallback => AppendStep::Open(Target::Fallback),
        AppendStep::Open(Target::Fallback) => match outcome {
            Ok(_) => AppendStep::Write(Target::Fallback),
            Err(fault) => AppendStep::Done(Err(open_error(fault))),
        },
        AppendStep::Write(target) => match outcome {
            Ok(_) => AppendStep::Done(Ok(target)),
            Err(_) => AppendStep::Done(Err(IoError::WriteFailure)),
        },
        AppendStep::Done(result) => AppendStep::Done(result),
    }
}

/// How many steps can still follow `step`, at most.
pub open spec fn steps_left(step: AppendStep) -> nat {
    match step {
        AppendStep::Open(Target::Named) => 4,
        AppendStep::CreateFallback => 3,
        AppendStep::Open(Target::Fallback) => 2,
        AppendStep::Write(_) => 1,
        AppendStep::Done(_) => 0,
    }
}

/// What an append comes to, given how opening the named path, opening the
/// fallback file and the write ended: the file that took the content, or
/// the error. Where the named path opened, the fallback file plays no part.
pub open spec fn append_result(
    opened: Result<(), Fault>,
    fallback_opened: Result<(), Fault>,
    written: Result<(), Fault>,
) -> Result<Target, IoError> {
    if opened is Ok {
        if written is Ok {
            Ok(Target::Named)
        } else {
            Err(IoError::WriteFailure)
        }
    } else {
        match fallback_opened {
            Ok(_) => if written is Ok {
                Ok(Target::Fallback)
            } else {
                Err(IoError::WriteFailure)
            },
            Err(fault) => Err(open_error(fault)),
        }
    }
}

/// The name of the fallback file.
pub fn fallback_file_name() -> (name: &'static str)
    ensures
        name@ == fallback_name(),
{
    "TestFile.txt"
}

/// The name of the file that `target` stands for.
pub fn file_name<'a>(target: Target, path: &'a str) -> (name: &'a str)
    ensures
        name@ == target_name(target, path@),
{
    match target {
        Target::Named => path,
        Target::Fallback => fallback_file_name(),
    }
}

/// The step that every append starts with: open the named path.
pub fn first_step() -> (step: AppendStep)
    ensures
        step == AppendStep::Open(Target::Named),
{
    AppendStep::Open(Target::Named)
}

/// The step that follows `step`, which has ended with `outcome`.
///
/// Each step but `Done` leads to one with fewer steps left, so an append is
/// done after four outcomes at most. `Done` stays as it is.
pub fn next_step(step: AppendStep, outcome: Result<(), Fault>) -> (following: AppendStep)
    ensures
        following == next(step, outcome),
        step is Done ==> following == step,
        !(step is Done) ==> steps_left(following) < steps_left(step),
{
    match step {
        AppendStep::Open(Target::Named) => match outcome {
            Ok(_) => AppendStep::Write(Target::Named),
            Err(_) => AppendStep::CreateFallback,
        },
        AppendStep::CreateFallback => AppendStep::Open(Target::Fallback),
        AppendStep::Open(Target::Fallback) => match outcome {
            Ok(_) => AppendStep::Write(Target::Fallback),
            Err(fault) => AppendStep::Done(Err(IoError::from_open_fault(fault))),
        },
        AppendStep::Write(target) => match outcome {
            Ok(_) => AppendStep::Done(Ok(target)),
            Err(_) => AppendStep::Done(Err(IoError::WriteFailure)),
        },
        AppendStep::Done(result) => AppendStep::Done(result),
    }
}

/// An append ends after two steps where the named path opens, after three
/// where neither file opens, and after four where the fallback file takes
/// the content. What it ends with is `append_result` of the outcomes, and
/// how creating the fallback file ended makes no difference to it.
pub proof fn lemma_append_result(
    opened: Result<(), Fault>,
    created: Result<(), Fault>,
    fallback_opened: Result<(), Fault>,
    written: Result<(), Fault>,
)
    ensures
        ({
            let start = AppendStep::Open(Target::Named);
            let end = AppendStep::Done(append_result(opened, fallback_opened, written));
            let at_fallback = next(next(next(start, opened), created), fallback_opened);
            &&& opened is Ok ==> next(next(start, opened), written) == end
            &&& opened is Err && fallback_opened is Err ==> at_fallback == end
            &&& opened is Err && fallback_opened is Ok ==> next(at_fallback, written) == end
        }),
{
}

} // verus!

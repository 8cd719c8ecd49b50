//! What an append leaves on a disk: a model of a disk on which no
//! operation fails for any reason but a missing file, and to which nobody
//! else writes, with the laws of the appender on it.
//!
//! The appender takes no lock and a real disk can change between two of its
//! steps. These laws say nothing of such a disk.

use crate::appender::{fallback_name, next, steps_left, target_name, AppendStep, Target};
use crate::error::Fault;
use vstd::prelude::*;

verus! {

/// The files on a disk: the bytes of each, by name.
pub type Disk = Map<Seq<char>, Seq<u8>>;

/// What the file `name` holds: nothing where there is no such file.
pub open spec fn held(disk: Disk, name: Seq<char>) -> Seq<u8> {
    if disk.dom().contains(name) {
        disk[name]
    } else {
        Seq::empty()
    }
}

/// The file that takes what is appended at `path`: the file at `path`
/// where there is one, the fallback file where there is none.
pub open spec fn destination(disk: Disk, path: Seq<char>) -> Target {
    if disk.dom().contains(path) {
        Target::Named
    } else {
        Target::Fallback
    }
}

/// What carrying out `step` leaves on the disk, and how the step ends.
///
/// Opening a file changes nothing and succeeds exactly when the file is
/// there. Creating the fallback file makes an empty file where there is
/// none and changes nothing where there is one. Writing puts the content
/// after what the file holds, and fails where there is no file.
pub open spec fn carry_out(disk: Disk, path: Seq<char>, content: Seq<u8>, step: AppendStep) -> (
    Disk,
    Result<(), Fault>,
) {
    match step {
        AppendStep::Open(target) => (
            disk,
            if disk.dom().contains(target_name(target, path)) {
                Ok(())
            } else {
                Err(Fault::Missing)
            },
        ),
        AppendStep::CreateFallback => if disk.dom().contains(fallback_name()) {
            (disk, Ok(()))
        } else {
            (disk.insert(fallback_name(), Seq::empty()), Ok(()))
        },
        AppendStep::Write(target) => if disk.dom().contains(target_name(target, path)) {
            (
                disk.insert(target_name(target, path), disk[target_name(target, path)] + content),
                Ok(()),
            )
        } else {
            (disk, Err(Fault::Missing))
        },
        AppendStep::Done(_) => (disk, Ok(())),
    }
}

/// The disk and the step once every step from `step` on has been carried
/// out.
pub open spec fn run(disk: Disk, path: Seq<char>, content: Seq<u8>, step: AppendStep) -> (
    Disk,
    AppendStep,
)
    decreases steps_left(step),
{
    if step is Done {
        (disk, step)
    } else {
        let (after, outcome) = carry_out(disk, path, content, step);
        run(after, path, content, next(step, outcome))
    }
}

/// The disk after `content` has been appended at `path`, and the step that
/// the appender ends in.
pub open spec fn append(disk: Disk, path: Seq<char>, content: Seq<u8>) -> (Disk, AppendStep) {
    run(disk, path, content, AppendStep::Open(Target::Named))
}

/// An append always succeeds on this disk. It puts the content after what
/// its destination holds, making that file where it is absent, and touches
/// no other file.
pub proof fn lemma_append(disk: Disk, path: Seq<char>, content: Seq<u8>)
    ensures
        ({
            let name = target_name(destination(disk, path), path);
            append(disk, path, content) == (
                disk.insert(name, held(disk, name) + content),
                AppendStep::Done(Ok(destination(disk, path))),
            )
        }),
{
    reveal_with_fuel(run, 5);
}

/// Appending to a file that is there puts the content after what the file
/// holds, and touches no other file.
pub proof fn lemma_append_to_present(disk: Disk, path: Seq<char>, content: Seq<u8>)
    requires
        disk.dom().contains(path),
    ensures
        append(disk, path, content) == (
            disk.insert(path, disk[path] + content),
            AppendStep::Done(Ok(Target::Named)),
        ),
{
    lemma_append(disk, path, content);
}

/// Appending at a path where no file is leaves the fallback file on the
/// disk, holding what it held before, if it was there, and then the
/// content. A fallback file that was not there ends up holding the content
/// and nothing else.
pub proof fn lemma_append_to_missing(disk: Disk, path: Seq<char>, content: Seq<u8>)
    requires
        !disk.dom().contains(path),
    ensures
        append(disk, path, content) == (
            disk.insert(fallback_name(), held(disk, fallback_name()) + content),
            AppendStep::Done(Ok(Target::Fallback)),
        ),
        append(disk, path, content).0.dom().contains(fallback_name()),
        append(disk, path, content).0[fallback_name()] == held(disk, fallback_name()) + content,
        !disk.dom().contains(fallback_name()) ==> append(disk, path, content).0[fallback_name()]
            == content,
{
    lemma_append(disk, path, content);
}

/// Two appends at one path keep their order, whatever the path: the file
/// that took the first content takes the second too, and ends up holding
/// what it held before, then the first content, then the second. A file
/// that held nothing, or was not there, ends up holding the first content
/// followed by the second.
pub proof fn lemma_append_twice(disk: Disk, path: Seq<char>, first: Seq<u8>, second: Seq<u8>)
    ensures
        ({
            let name = target_name(destination(disk, path), path);
            let once = append(disk, path, first).0;
            let twice = append(once, path, second).0;
            &&& target_name(destination(once, path), path) == name
            &&& append(once, path, second) == (
                disk.insert(name, held(disk, name) + first + second),
                AppendStep::Done(Ok(destination(once, path))),
            )
            &&& held(disk, name).len() == 0 ==> twice[name] == first + second
        }),
{
    lemma_append(disk, path, first);
    lemma_append(append(disk, path, first).0, path, second);
}

/// An append takes nothing away: every file that was on the disk is still
/// there afterwards and starts with what it held.
pub proof fn lemma_append_only_grows(disk: Disk, path: Seq<char>, content: Seq<u8>)
    ensures
        forall|name: Seq<char>| #[trigger]
            disk.dom().contains(name) ==> {
                &&& append(disk, path, content).0.dom().contains(name)
                &&& disk[name].is_prefix_of(append(disk, path, content).0[name])
            },
{
    lemma_append(disk, path, content);
}

} // verus!

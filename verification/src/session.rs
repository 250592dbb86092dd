//! The operations on the store's file, each as the sequence of steps that
//! its caller performs, and the errors of the steps.
//!
//! A caller holds the store from the step that creates the sentinel to the
//! step that removes it. The plans are laid out so that the store's file is
//! touched only in between.

use crate::errors::Error;
use crate::lock::Access;
use vstd::prelude::*;
use vstd::string::StringExecFns;

verus! {

/// What a caller wants done with the store's file.
#[derive(Clone, Copy, Debug, PartialEq, Eq, Structural)]
pub enum Operation {
    /// Load the store and release it.
    Load,
    /// Load the store and keep it locked and open for a later write.
    LoadForWrite,
    /// Lock the store, rewrite it and release it.
    WriteToPath,
    /// Rewrite the store through the file kept by `LoadForWrite`, and
    /// release it.
    WriteAndClose,
    /// Release the store kept by `LoadForWrite` without writing.
    CloseWithoutWriting,
}

/// One step of an operation.
#[derive(Clone, Copy, Debug, PartialEq, Eq, Structural)]
pub enum FileStep {
    /// Poll until the sentinel is gone, or give up.
    AwaitSentinel,
    /// Create the sentinel.
    CreateSentinel,
    /// Open the store's file.
    OpenStore,
    /// Read the size of the store's file.
    ReadMetadata,
    /// Decode the store from the file.
    Load,
    /// Move the file cursor back to the start.
    Rewind,
    /// Encode the whole store into the file.
    Write,
    /// Flush what was written.
    Flush,
    /// Delete the sentinel.
    RemoveSentinel,
}

/// The steps of `operation`, in order.
pub open spec fn plan(operation: Operation) -> Seq<FileStep> {
    match operation {
        Operation::Load => seq![
            FileStep::AwaitSentinel,
            FileStep::CreateSentinel,
            FileStep::OpenStore,
            FileStep::ReadMetadata,
            FileStep::Load,
            FileStep::RemoveSentinel,
        ],
        Operation::LoadForWrite => seq![
            FileStep::AwaitSentinel,
            FileStep::CreateSentinel,
            FileStep::OpenStore,
            FileStep::ReadMetadata,
            FileStep::Load,
            FileStep::Rewind,
        ],
        Operation::WriteToPath => seq![
            FileStep::AwaitSentinel,
            FileStep::CreateSentinel,
            FileStep::OpenStore,
            FileStep::ReadMetadata,
            FileStep::Write,
            FileStep::Flush,
            FileStep::RemoveSentinel,
        ],
        Operation::WriteAndClose => seq![
            FileStep::Write,
            FileStep::Flush,
            FileStep::RemoveSentinel,
        ],
        Operation::CloseWithoutWriting => seq![FileStep::RemoveSentinel],
    }
}

/// Whether `operation` starts with the store already held by its caller.
pub open spec fn starts_locked(operation: Operation) -> bool {
    operation == Operation::WriteAndClose || operation == Operation::CloseWithoutWriting
}

/// Whether `step` reads or writes the store's file.
pub open spec fn touches_store(step: FileStep) -> bool {
    step != FileStep::AwaitSentinel && step != FileStep::CreateSentinel && step
        != FileStep::RemoveSentinel
}

/// Whether the caller holds the store once `step` is done, given whether it
/// held it before.
pub open spec fn locked_after_step(step: FileStep, locked: bool) -> bool {
    match step {
        FileStep::CreateSentinel => true,
        FileStep::RemoveSentinel => false,
        _ => locked,
    }
}

/// Whether the caller holds the store once `steps` are done.
pub open spec fn locked_after(steps: Seq<FileStep>, locked: bool) -> bool
    decreases steps.len(),
{
    if steps.len() == 0 {
        locked
    } else {
        locked_after_step(steps.last(), locked_after(steps.drop_last(), locked))
    }
}

/// Whether `steps` keep to the protocol: the sentinel is created only right
/// after the wait for it, by a caller that does not hold the store, and the
/// store's file is touched only by a caller that holds it.
pub open spec fn keeps_protocol(steps: Seq<FileStep>, locked: bool) -> bool
    decreases steps.len(),
{
    if steps.len() == 0 {
        true
    } else {
        let before = steps.drop_last();
        &&& keeps_protocol(before, locked)
        &&& touches_store(steps.last()) ==> locked_after(before, locked)
        &&& steps.last() == FileStep::AwaitSentinel ==> !locked_after(before, locked)
        &&& steps.last() == FileStep::CreateSentinel ==> before.len() > 0 && before.last()
            == FileStep::AwaitSentinel
    }
}

/// How `operation` opens the store's file; `None` where it opens none.
pub open spec fn spec_access_of(operation: Operation) -> Option<Access> {
    match operation {
        Operation::Load => Some(Access::Read),
        Operation::LoadForWrite => Some(Access::ReadThenWrite),
        Operation::WriteToPath => Some(Access::Overwrite),
        _ => None,
    }
}

/// The steps of `operation`, in the order in which they are performed.
pub fn steps_of(operation: Operation) -> (steps: Vec<FileStep>)
    ensures
        steps@ == plan(operation),
{
    let mut steps: Vec<FileStep> = Vec::new();
    match operation {
        Operation::Load => {
            steps.push(FileStep::AwaitSentinel);
            steps.push(FileStep::CreateSentinel);
            steps.push(FileStep::OpenStore);
            steps.push(FileStep::ReadMetadata);
            steps.push(FileStep::Load);
            steps.push(FileStep::RemoveSentinel);
        },
        Operation::LoadForWrite => {
            steps.push(FileStep::AwaitSentinel);
            steps.push(FileStep::CreateSentinel);
            steps.push(FileStep::OpenStore);
            steps.push(FileStep::ReadMetadata);
            steps.push(FileStep::Load);
            steps.push(FileStep::Rewind);
        },
        Operation::WriteToPath => {
            steps.push(FileStep::AwaitSentinel);
            steps.push(FileStep::CreateSentinel);
            steps.push(FileStep::OpenStore);
            steps.push(FileStep::ReadMetadata);
            steps.push(FileStep::Write);
            steps.push(FileStep::Flush);
            steps.push(FileStep::RemoveSentinel);
        },
        Operation::WriteAndClose => {
            steps.push(FileStep::Write);
            steps.push(FileStep::Flush);
            steps.push(FileStep::RemoveSentinel);
        },
        Operation::CloseWithoutWriting => {
            steps.push(FileStep::RemoveSentinel);
        },
    }
    proof {
        assert(steps@ =~= plan(operation));
    }
    steps
}

/// How `operation` opens the store's file; `None` where it works on a file
/// that is open already, or on none.
pub fn access_of(operation: Operation) -> (access: Option<Access>)
    ensures
        access == spec_access_of(operation),
{
    match operation {
        Operation::Load => Some(Access::Read),
        Operation::LoadForWrite => Some(Access::ReadThenWrite),
        Operation::WriteToPath => Some(Access::Overwrite),
        Operation::WriteAndClose => None,
        Operation::CloseWithoutWriting => None,
    }
}

/// The error with which an operation on the store at `path` fails when its
/// step `step` fails.
pub fn failure_of(step: FileStep, path: &str) -> (error: Error)
    ensures
        match step {
            FileStep::AwaitSentinel => error is LockFileTimeout && error->LockFileTimeout_0@
                == path@,
            FileStep::CreateSentinel => error == Error::FailedToOpenFile,
            FileStep::OpenStore => error == Error::FailedToOpenFile,
            FileStep::ReadMetadata => error == Error::FailedToGetFileMetadata,
            FileStep::Load => error == Error::CborDeserialize,
            FileStep::Rewind => error == Error::FailedToSetFileCursor,
            FileStep::Write => error == Error::CborSerialize,
            FileStep::Flush => error == Error::FailedToWriteFile,
            FileStep::RemoveSentinel => error == Error::FailedToRemoveFile,
        },
{
    match step {
        FileStep::AwaitSentinel => Error::LockFileTimeout(String::from_str(path)),
        FileStep::CreateSentinel => Error::FailedToOpenFile,
        FileStep::OpenStore => Error::FailedToOpenFile,
        FileStep::ReadMetadata => Error::FailedToGetFileMetadata,
        FileStep::Load => Error::CborDeserialize,
        FileStep::Rewind => Error::FailedToSetFileCursor,
        FileStep::Write => Error::CborSerialize,
        FileStep::Flush => Error::FailedToWriteFile,
        FileStep::RemoveSentinel => Error::FailedToRemoveFile,
    }
}

/// One more step extends what holds of the steps before it.
pub proof fn lemma_step_extends(steps: Seq<FileStep>, step: FileStep, locked: bool)
    ensures
        locked_after(steps.push(step), locked) == locked_after_step(
            step,
            locked_after(steps, locked),
        ),
        keeps_protocol(steps.push(step), locked) == (keeps_protocol(steps, locked) && (
        touches_store(step) ==> locked_after(steps, locked)) && (step == FileStep::AwaitSentinel
            ==> !locked_after(steps, locked)) && (step == FileStep::CreateSentinel ==> steps.len()
            > 0 && steps.last() == FileStep::AwaitSentinel)),
{
    assert(steps.push(step).drop_last() =~= steps);
}

/// An operation opens the store's file exactly where its plan has the step
/// for it.
pub proof fn lemma_access_where_opened(operation: Operation)
    ensures
        spec_access_of(operation) is Some <==> plan(operation).contains(FileStep::OpenStore),
{
    if spec_access_of(operation) is Some {
        assert(plan(operation)[2] == FileStep::OpenStore);
    }
}

/// Every operation keeps to the protocol: it touches the store's file only
/// while its caller holds the store, and it creates the sentinel only after
/// it has waited for the sentinel to be gone.
pub proof fn lemma_plans_keep_protocol(operation: Operation)
    ensures
        keeps_protocol(plan(operation), starts_locked(operation)),
        locked_after(plan(operation), starts_locked(operation)) == (operation
            == Operation::LoadForWrite),
{
    let locked = starts_locked(operation);
    let steps = plan(operation);
    let mut done = Seq::<FileStep>::empty();
    assert(keeps_protocol(done, locked));
    assert(locked_after(done, locked) == locked);
    if steps.len() > 0 {
        lemma_step_extends(done, steps[0], locked);
        done = done.push(steps[0]);
    }
    if steps.len() > 1 {
        lemma_step_extends(done, steps[1], locked);
        done = done.push(steps[1]);
    }
    if steps.len() > 2 {
        lemma_step_extends(done, steps[2], locked);
        done = done.push(steps[2]);
    }
    if steps.len() > 3 {
        lemma_step_extends(done, steps[3], locked);
        done = done.push(steps[3]);
    }
    if steps.len() > 4 {
        lemma_step_extends(done, steps[4], locked);
        done = done.push(steps[4]);
    }
    if steps.len() > 5 {
        lemma_step_extends(done, steps[5], locked);
        done = done.push(steps[5]);
    }
    if steps.len() > 6 {
        lemma_step_extends(done, steps[6], locked);
        done = done.push(steps[6]);
    }
    assert(done =~= steps);
}

/// Steps done one after the other leave the store held as the later ones
/// say, starting from where the earlier ones left it.
pub proof fn lemma_locked_after_concat(first: Seq<FileStep>, second: Seq<FileStep>, locked: bool)
    ensures
        locked_after(first + second, locked) == locked_after(
            second,
            locked_after(first, locked),
        ),
    decreases second.len(),
{
    if second.len() == 0 {
        assert(first + second =~= first);
    } else {
        lemma_locked_after_concat(first, second.drop_last(), locked);
        assert((first + second).drop_last() =~= first + second.drop_last());
    }
}

/// A load for write followed by either way of closing is a whole cycle: the
/// store is released at its end.
pub proof fn lemma_load_then_close_releases(close: Operation)
    requires
        close == Operation::WriteAndClose || close == Operation::CloseWithoutWriting,
    ensures
        !locked_after(plan(Operation::LoadForWrite) + plan(close), false),
{
    lemma_plans_keep_protocol(Operation::LoadForWrite);
    lemma_plans_keep_protocol(close);
    lemma_locked_after_concat(plan(Operation::LoadForWrite), plan(close), false);
}

} // verus!

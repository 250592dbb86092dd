//! The lock-sentinel protocol of the store's file, as decisions.
//!
//! A store at path `P` is busy while the file `P.lock` exists. Whoever wants
//! the store polls for the sentinel, and creates it once it is gone. The
//! caller does the polling, sleeping and file work; what to do next is
//! decided here.
//!
//! The protocol is advisory. Two waiters that both find the sentinel gone
//! before either has created it both proceed, and a sentinel left behind by
//! a holder that died is never broken: every later waiter times out until
//! the sentinel is deleted by hand.

use crate::errors::Error;
use vstd::prelude::*;
use vstd::string::StringExecFns;

verus! {

/// Milliseconds to sleep between two polls for the sentinel.
pub const SLEEP_BEFORE_RETRY_MS: u64 = 100;

/// Milliseconds after which a poll that still finds the sentinel gives up.
pub const LOCKFILE_TIMEOUT_MS: u64 = 5000;

/// What to do after a poll for the sentinel.
#[derive(Clone, Debug, PartialEq, Eq)]
pub enum LockStep {
    /// The sentinel is gone: create it. That creation is the acquisition.
    Acquire,
    /// The sentinel is there: sleep this many milliseconds and poll again.
    Wait(u64),
    /// The sentinel outlived the timeout: fail with this error.
    GiveUp(Error),
}

/// What a `LockStep` says.
pub enum LockStepModel {
    Acquire,
    Wait(u64),
    /// Timed out on the store at this path.
    GiveUp(Seq<char>),
}

/// The decision after a poll that found the sentinel present or not,
/// `elapsed_ms` milliseconds after the first poll.
pub open spec fn lock_decision(path: Seq<char>, sentinel_exists: bool, elapsed_ms: u64) -> LockStepModel {
    if !sentinel_exists {
        LockStepModel::Acquire
    } else if elapsed_ms > LOCKFILE_TIMEOUT_MS {
        LockStepModel::GiveUp(path)
    } else {
        LockStepModel::Wait(SLEEP_BEFORE_RETRY_MS)
    }
}

impl View for LockStep {
    type V = LockStepModel;

    open spec fn view(&self) -> LockStepModel {
        match *self {
            LockStep::Acquire => LockStepModel::Acquire,
            LockStep::Wait(ms) => LockStepModel::Wait(ms),
            LockStep::GiveUp(Error::LockFileTimeout(path)) => LockStepModel::GiveUp(path@),
            LockStep::GiveUp(_) => LockStepModel::GiveUp(Seq::empty()),
        }
    }
}

/// The path of the sentinel that guards the store at `path`.
pub fn lock_path(path: &str) -> (sentinel: String)
    ensures
        sentinel@ == path@ + ".lock"@,
{
    String::from_str(path).concat(".lock")
}

/// Decides what follows a poll for the sentinel of the store at `path`.
///
/// The store is acquired only on a poll that found no sentinel; while the
/// sentinel exists the answer is to wait, until the timeout has passed, and
/// then to fail with `Error::LockFileTimeout` for `path`.
pub fn lock_step(path: &str, sentinel_exists: bool, elapsed_ms: u64) -> (step: LockStep)
    ensures
        step@ == lock_decision(path@, sentinel_exists, elapsed_ms),
        step is GiveUp ==> step->GiveUp_0 is LockFileTimeout,
        step is Acquire <==> !sentinel_exists,
{
    if !sentinel_exists {
        LockStep::Acquire
    } else if elapsed_ms > LOCKFILE_TIMEOUT_MS {
        LockStep::GiveUp(Error::LockFileTimeout(String::from_str(path)))
    } else {
        LockStep::Wait(SLEEP_BEFORE_RETRY_MS)
    }
}

/// What a caller intends to do with the store's file.
#[derive(Clone, Copy, Debug, PartialEq, Eq, Structural)]
pub enum Access {
    /// Load the store.
    Read,
    /// Load the store and keep the file for a later rewrite.
    ReadThenWrite,
    /// Rewrite the store without loading it.
    Overwrite,
}

/// How the store's file is opened.
#[derive(Clone, Copy, Debug, PartialEq, Eq, Structural)]
pub struct OpenPlan {
    pub read: bool,
    pub write: bool,
    pub create: bool,
    pub truncate: bool,
}

/// How the file is opened for each kind of access: only a caller that
/// intends to write has a missing file created, and only one that does not
/// load first has the old contents cut off.
pub fn open_plan(access: Access) -> (plan: OpenPlan)
    ensures
        plan.read == (access != Access::Overwrite),
        plan.write == (access != Access::Read),
        plan.create == (access != Access::Read),
        plan.truncate == (access == Access::Overwrite),
{
    match access {
        Access::Read => OpenPlan { read: true, write: false, create: false, truncate: false },
        Access::ReadThenWrite => OpenPlan {
            read: true,
            write: true,
            create: true,
            truncate: false,
        },
        Access::Overwrite => OpenPlan { read: false, write: true, create: true, truncate: true },
    }
}

/// A waiter never proceeds while the sentinel exists: it waits or gives up.
pub proof fn lemma_never_acquires_while_locked(path: Seq<char>, elapsed_ms: u64)
    ensures
        !(lock_decision(path, true, elapsed_ms) is Acquire),
{
}

/// A waiter that has slept the asked time more than fifty times gives up on
/// its next poll: no wait outlasts the timeout by more than one sleep.
pub proof fn lemma_wait_is_bounded(path: Seq<char>, sleeps: nat, elapsed_ms: u64)
    requires
        sleeps > LOCKFILE_TIMEOUT_MS / SLEEP_BEFORE_RETRY_MS,
        elapsed_ms >= sleeps * SLEEP_BEFORE_RETRY_MS,
    ensures
        lock_decision(path, true, elapsed_ms) == LockStepModel::GiveUp(path),
{
}

/// A waiter succeeds on the first poll after the holder released.
pub proof fn lemma_acquires_after_release(path: Seq<char>, elapsed_ms: u64)
    ensures
        lock_decision(path, false, elapsed_ms) is Acquire,
{
}

} // verus!

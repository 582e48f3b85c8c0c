use vstd::prelude::*;

use nix::errno::Errno;

use crate::error::{ReflinkAtError, cleanup, cleanup_error};
use crate::policy::{OnExists, OpenFlags, unlinked_flags, unlinked_flags_spec};

verus! {

/// A step that the caller performs, handing its outcome back to the run.
#[derive(Debug, PartialEq, Eq)]
pub enum Step<E> {
    /// Open the destination with these flags and the caller's mode, and take
    /// ownership of the new descriptor.
    Open(OpenFlags),
    /// Clone the source's extents into the opened destination.
    Clone,
    /// Remove the destination path, failing if it is a directory.
    Unlink,
    /// The run is over: on `Ok` the opened descriptor goes to the caller, on
    /// `Err` it is closed.
    Done(Result<(), E>),
}

/// Where a path-resolving clone stands: each phase but the last waits for
/// the outcome of one system call.
#[derive(Debug, Clone, Copy, PartialEq, Eq)]
pub enum AtPhase {
    /// Waiting for the open of the destination.
    Opening,
    /// Waiting for the clone.
    Cloning,
    /// Waiting for the removal of the destination after the clone failed
    /// with the error held.
    CleaningUp(Errno),
    /// Finished with this result.
    Finished(Result<(), ReflinkAtError>),
}

/// The phase that follows `phase` once the system call it waits for has
/// given `outcome`. A finished run stays as it is.
pub open spec fn at_next(phase: AtPhase, outcome: Result<(), Errno>) -> AtPhase {
    match phase {
        AtPhase::Opening => match outcome {
            Ok(()) => AtPhase::Cloning,
            Err(e) => AtPhase::Finished(Err(ReflinkAtError::Errno(e))),
        },
        AtPhase::Cloning => match outcome {
            Ok(()) => AtPhase::Finished(Ok(())),
            Err(e) => AtPhase::CleaningUp(e),
        },
        AtPhase::CleaningUp(e) => AtPhase::Finished(Err(cleanup_error(e, outcome))),
        AtPhase::Finished(r) => AtPhase::Finished(r),
    }
}

/// The result of a whole path-resolving clone, from the outcomes of the open,
/// the clone and the cleanup removal; an outcome that is not asked for is not
/// read.
pub open spec fn reflink_at_result(
    opened: Result<(), Errno>,
    cloned: Result<(), Errno>,
    unlinked: Result<(), Errno>,
) -> Result<(), ReflinkAtError> {
    match opened {
        Err(e) => Err(ReflinkAtError::Errno(e)),
        Ok(()) => match cloned {
            Ok(()) => Ok(()),
            Err(e) => Err(cleanup_error(e, unlinked)),
        },
    }
}

/// A clone of a source into a destination path, opened by an existence
/// policy and removed again when the clone fails.
#[derive(Debug, Clone, Copy, PartialEq, Eq)]
pub struct ReflinkAt {
    pub on_exists: OnExists,
    pub phase: AtPhase,
}

impl ReflinkAt {
    /// The step that this run asks for.
    pub open spec fn step_spec(self) -> Step<ReflinkAtError> {
        match self.phase {
            AtPhase::Opening => Step::Open(self.on_exists.flags()),
            AtPhase::Cloning => Step::Clone,
            AtPhase::CleaningUp(_) => Step::Unlink,
            AtPhase::Finished(r) => Step::Done(r),
        }
    }

    /// Start a run under the given existence policy.
    pub fn new(on_exists: OnExists) -> (r: ReflinkAt)
        ensures
            r.on_exists == on_exists,
            r.phase == AtPhase::Opening,
            r.step_spec() == Step::<ReflinkAtError>::Open(on_exists.flags()),
    {
        ReflinkAt { on_exists, phase: AtPhase::Opening }
    }

    /// The step that this run asks for.
    pub fn step(&self) -> (r: Step<ReflinkAtError>)
        ensures
            r == self.step_spec(),
    {
        match self.phase {
            AtPhase::Opening => Step::Open(self.on_exists.as_flags()),
            AtPhase::Cloning => Step::Clone,
            AtPhase::CleaningUp(_) => Step::Unlink,
            AtPhase::Finished(r) => Step::Done(r),
        }
    }

    /// Hand back the outcome of the step last asked for, and get the next one.
    pub fn resume(&mut self, outcome: Result<(), Errno>) -> (r: Step<ReflinkAtError>)
        ensures
            final(self).on_exists == old(self).on_exists,
            final(self).phase == at_next(old(self).phase, outcome),
            r == final(self).step_spec(),
    {
        let next = match self.phase {
            AtPhase::Opening => match outcome {
                Ok(()) => AtPhase::Cloning,
                Err(e) => AtPhase::Finished(Err(ReflinkAtError::Errno(e))),
            },
            AtPhase::Cloning => match outcome {
                Ok(()) => AtPhase::Finished(Ok(())),
                Err(e) => AtPhase::CleaningUp(e),
            },
            AtPhase::CleaningUp(e) => AtPhase::Finished(Err(cleanup(e, outcome))),
            AtPhase::Finished(r) => AtPhase::Finished(r),
        };
        self.phase = next;
        self.step()
    }
}

/// Where an unnamed clone stands.
#[derive(Debug, Clone, Copy, PartialEq, Eq)]
pub enum UnlinkedPhase {
    /// Waiting for the open of the unnamed file.
    Opening,
    /// Waiting for the clone.
    Cloning,
    /// Finished with this result.
    Finished(Result<(), Errno>),
}

/// The phase that follows `phase` once the system call it waits for has
/// given `outcome`: any error ends the run as it came, with nothing to undo.
pub open spec fn unlinked_next(phase: UnlinkedPhase, outcome: Result<(), Errno>) -> UnlinkedPhase {
    match phase {
        UnlinkedPhase::Opening => match outcome {
            Ok(()) => UnlinkedPhase::Cloning,
            Err(e) => UnlinkedPhase::Finished(Err(e)),
        },
        UnlinkedPhase::Cloning => UnlinkedPhase::Finished(outcome),
        UnlinkedPhase::Finished(r) => UnlinkedPhase::Finished(r),
    }
}

/// The result of a whole unnamed clone, from the outcomes of the open and the
/// clone: the first error, or success.
pub open spec fn reflink_unlinked_result(
    opened: Result<(), Errno>,
    cloned: Result<(), Errno>,
) -> Result<(), Errno> {
    match opened {
        Err(e) => Err(e),
        Ok(()) => cloned,
    }
}

/// A clone of a source into an unnamed file on the filesystem of a directory.
/// No name ever appears, so a failure leaves nothing to remove.
#[derive(Debug, Clone, Copy, PartialEq, Eq)]
pub struct ReflinkUnlinked {
    pub phase: UnlinkedPhase,
}

impl ReflinkUnlinked {
    /// The step that this run asks for.
    pub open spec fn step_spec(self) -> Step<Errno> {
        match self.phase {
            UnlinkedPhase::Opening => Step::Open(unlinked_flags_spec()),
            UnlinkedPhase::Cloning => Step::Clone,
            UnlinkedPhase::Finished(r) => Step::Done(r),
        }
    }

    /// Start a run.
    pub fn new() -> (r: ReflinkUnlinked)
        ensures
            r.phase == UnlinkedPhase::Opening,
            r.step_spec() == Step::<Errno>::Open(unlinked_flags_spec()),
    {
        ReflinkUnlinked { phase: UnlinkedPhase::Opening }
    }

    /// The step that this run asks for.
    pub fn step(&self) -> (r: Step<Errno>)
        ensures
            r == self.step_spec(),
    {
        match self.phase {
            UnlinkedPhase::Opening => Step::Open(unlinked_flags()),
            UnlinkedPhase::Cloning => Step::Clone,
            UnlinkedPhase::Finished(r) => Step::Done(r),
        }
    }

    /// Hand back the outcome of the step last asked for, and get the next one.
    pub fn resume(&mut self, outcome: Result<(), Errno>) -> (r: Step<Errno>)
        ensures
            final(self).phase == unlinked_next(old(self).phase, outcome),
            r == final(self).step_spec(),
    {
        let next = match self.phase {
            UnlinkedPhase::Opening => match outcome {
                Ok(()) => UnlinkedPhase::Cloning,
                Err(e) => UnlinkedPhase::Finished(Err(e)),
            },
            UnlinkedPhase::Cloning => UnlinkedPhase::Finished(outcome),
            UnlinkedPhase::Finished(r) => UnlinkedPhase::Finished(r),
        };
        self.phase = next;
        self.step()
    }
}

} // verus!

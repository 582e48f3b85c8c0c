use vstd::prelude::*;

use nix::errno::Errno;

verus! {

/// nix's error number: carried through as it came from the system, never read.
#[verifier::external_type_specification]
#[verifier::external_body]
pub struct ExErrno(nix::errno::Errno);

/// Error type of a path-resolving clone.
#[derive(Debug, Clone, Copy, PartialEq, Eq)]
pub enum ReflinkAtError {
    /// Unlink of the destination, as cleanup after a failed clone, failed.
    CleanupUnlink {
        /// Reason for the cleanup.
        src: Errno,
        /// Unlink error.
        cleanup: Errno,
    },
    /// Unlink of a file failed.
    Unlink(Errno),
    /// Forwarded error number.
    Errno(Errno),
}

/// The error reported after a failed clone `err`, given how the removal of
/// the destination went: the clone's error alone when the removal succeeded,
/// both errors when it failed.
pub open spec fn cleanup_error(err: Errno, unlinked: Result<(), Errno>) -> ReflinkAtError {
    match unlinked {
        Ok(()) => ReflinkAtError::Errno(err),
        Err(cleanup) => ReflinkAtError::CleanupUnlink { src: err, cleanup },
    }
}

/// Build the error of a failed clone from the outcome of its cleanup.
pub fn cleanup(err: Errno, unlinked: Result<(), Errno>) -> (r: ReflinkAtError)
    ensures
        r == cleanup_error(err, unlinked),
{
    match unlinked {
        Ok(()) => ReflinkAtError::Errno(err),
        Err(cleanup) => ReflinkAtError::CleanupUnlink { src: err, cleanup },
    }
}

impl From<Errno> for ReflinkAtError {
    fn from(e: Errno) -> (r: ReflinkAtError)
        ensures
            r == ReflinkAtError::Errno(e),
    {
        ReflinkAtError::Errno(e)
    }
}

impl vstd::std_specs::convert::FromSpecImpl<Errno> for ReflinkAtError {
    open spec fn obeys_from_spec() -> bool {
        true
    }

    open spec fn from_spec(e: Errno) -> ReflinkAtError {
        ReflinkAtError::Errno(e)
    }
}

} // verus!

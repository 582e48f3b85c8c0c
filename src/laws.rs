use vstd::prelude::*;

use nix::errno::Errno;

use crate::error::{ReflinkAtError, cleanup_error};
use crate::policy::{OnExists, OpenFlags, PathOpen, open_effect, unlinked_flags_spec};
use crate::steps::{
    AtPhase, ReflinkAt, ReflinkUnlinked, Step, UnlinkedPhase, at_next, reflink_at_result,
    reflink_unlinked_result, unlinked_next,
};

verus! {

/// A path-resolving clone ends after at most three outcomes, open, clone and
/// cleanup removal, with the result that those outcomes give, and stays
/// finished whatever comes after.
pub proof fn lemma_reflink_at_ends(
    opened: Result<(), Errno>,
    cloned: Result<(), Errno>,
    unlinked: Result<(), Errno>,
    later: Result<(), Errno>,
)
    ensures
        at_next(at_next(at_next(AtPhase::Opening, opened), cloned), unlinked)
            == AtPhase::Finished(reflink_at_result(opened, cloned, unlinked)),
        at_next(AtPhase::Finished(reflink_at_result(opened, cloned, unlinked)), later)
            == AtPhase::Finished(reflink_at_result(opened, cloned, unlinked)),
{
}

/// Whatever the policy, a failed open ends the run with that error: neither
/// a clone nor a removal is asked for, so the destination is left untouched.
pub proof fn lemma_failed_open_touches_nothing(on_exists: OnExists, e: Errno)
    ensures
        (ReflinkAt { on_exists, phase: at_next(AtPhase::Opening, Err(e)) }).step_spec()
            == Step::<ReflinkAtError>::Done(Err(ReflinkAtError::Errno(e))),
{
}

/// `CreateNewOnly` creates a missing destination and fails with "already
/// exists" on an existing one, which the run then leaves untouched.
pub proof fn lemma_create_new_only(e: Errno)
    ensures
        open_effect(OnExists::CreateNewOnly.flags(), false) == PathOpen::Created,
        open_effect(OnExists::CreateNewOnly.flags(), true) == PathOpen::FailsExists,
        (ReflinkAt { on_exists: OnExists::CreateNewOnly, phase: at_next(AtPhase::Opening, Err(e)) }).step_spec()
            == Step::<ReflinkAtError>::Done(Err(ReflinkAtError::Errno(e))),
{
}

/// `ExistsOnly` fails with "not found" on a missing destination; when the
/// clone into an existing one fails, the destination is still removed, and
/// the run reports the clone's error, or both errors if the removal failed.
pub proof fn lemma_exists_only(e: Errno, unlinked: Result<(), Errno>)
    ensures
        open_effect(OnExists::ExistsOnly.flags(), false) == PathOpen::FailsNotFound,
        open_effect(OnExists::ExistsOnly.flags(), true) == PathOpen::Opened,
        (ReflinkAt {
            on_exists: OnExists::ExistsOnly,
            phase: at_next(at_next(AtPhase::Opening, Ok(())), Err(e)),
        }).step_spec() == Step::<ReflinkAtError>::Unlink,
        (ReflinkAt {
            on_exists: OnExists::ExistsOnly,
            phase: at_next(at_next(at_next(AtPhase::Opening, Ok(())), Err(e)), unlinked),
        }).step_spec() == Step::<ReflinkAtError>::Done(Err(cleanup_error(e, unlinked))),
        unlinked is Ok ==> cleanup_error(e, unlinked) == ReflinkAtError::Errno(e),
        unlinked is Err ==> cleanup_error(e, unlinked) == (ReflinkAtError::CleanupUnlink {
            src: e,
            cleanup: unlinked->Err_0,
        }),
{
}

/// `Create` opens an existing destination as it is; on a missing one it
/// creates, as `CreateNewOnly` does, and from the open on both runs ask for the
/// same steps.
pub proof fn lemma_create(phase: AtPhase)
    ensures
        open_effect(OnExists::Create.flags(), true) == PathOpen::Opened,
        open_effect(OnExists::Create.flags(), false) == open_effect(
            OnExists::CreateNewOnly.flags(),
            false,
        ),
        phase != AtPhase::Opening ==> (ReflinkAt { on_exists: OnExists::Create, phase }).step_spec()
            == (ReflinkAt { on_exists: OnExists::CreateNewOnly, phase }).step_spec(),
{
}

/// An unnamed clone never makes a name in the anchor directory, never asks
/// for a removal, and ends after the open and the clone with the first error
/// or success.
pub proof fn lemma_unlinked(
    phase: UnlinkedPhase,
    opened: Result<(), Errno>,
    cloned: Result<(), Errno>,
)
    ensures
        open_effect(unlinked_flags_spec(), true) == PathOpen::Unnamed,
        (ReflinkUnlinked { phase }).step_spec() != Step::<Errno>::Unlink,
        unlinked_next(unlinked_next(UnlinkedPhase::Opening, opened), cloned)
            == UnlinkedPhase::Finished(reflink_unlinked_result(opened, cloned)),
{
}

/// Of two exclusive creations of one path, one after the other, at most one
/// creates the file; when the path was missing, the first creates it and the
/// second fails with "already exists".
pub proof fn lemma_exclusive_create_once(exists: bool)
    ensures
        ({
            let f = OnExists::CreateNewOnly.flags();
            let first = open_effect(f, exists);
            let second = open_effect(f, exists || first == PathOpen::Created);
            &&& !(first == PathOpen::Created && second == PathOpen::Created)
            &&& !exists ==> first == PathOpen::Created && second == PathOpen::FailsExists
        }),
{
}

} // verus!

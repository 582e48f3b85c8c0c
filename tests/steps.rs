use mm_reflink::{
    cleanup, AtPhase, Errno, OnExists, OpenFlags, ReflinkAt, ReflinkAtError, ReflinkUnlinked,
    Step, UnlinkedPhase, unlinked_flags,
};

fn flags(create: bool, exclusive: bool, tmpfile: bool) -> OpenFlags {
    OpenFlags { create, exclusive, read_write: true, tmpfile }
}

#[test]
fn create_new_only_flags_create_exclusively() {
    assert_eq!(OnExists::CreateNewOnly.as_flags(), flags(true, true, false));
}

#[test]
fn exists_only_flags_never_create() {
    assert_eq!(OnExists::ExistsOnly.as_flags(), flags(false, false, false));
}

#[test]
fn create_flags_create_when_absent() {
    assert_eq!(OnExists::Create.as_flags(), flags(true, false, false));
}

#[test]
fn unnamed_clone_opens_a_temporary_file() {
    assert_eq!(unlinked_flags(), flags(false, false, true));
}

#[test]
fn cleanup_that_succeeds_reports_the_clone_error() {
    assert_eq!(cleanup(Errno::EXDEV, Ok(())), ReflinkAtError::Errno(Errno::EXDEV));
}

#[test]
fn cleanup_that_fails_reports_both_errors() {
    assert_eq!(
        cleanup(Errno::EBADF, Err(Errno::EACCES)),
        ReflinkAtError::CleanupUnlink { src: Errno::EBADF, cleanup: Errno::EACCES }
    );
}

#[test]
fn errno_converts_to_forwarded_error() {
    assert_eq!(ReflinkAtError::from(Errno::ENOENT), ReflinkAtError::Errno(Errno::ENOENT));
}

#[test]
fn reflink_at_success_hands_over_descriptor() {
    let mut run = ReflinkAt::new(OnExists::CreateNewOnly);
    assert_eq!(run.step(), Step::Open(flags(true, true, false)));
    assert_eq!(run.resume(Ok(())), Step::Clone);
    assert_eq!(run.resume(Ok(())), Step::Done(Ok(())));
    assert_eq!(run.phase, AtPhase::Finished(Ok(())));
}

#[test]
fn create_new_only_on_existing_path_stops_after_open() {
    let mut run = ReflinkAt::new(OnExists::CreateNewOnly);
    assert_eq!(run.resume(Err(Errno::EEXIST)), Step::Done(Err(ReflinkAtError::Errno(Errno::EEXIST))));
}

#[test]
fn exists_only_on_missing_path_fails_not_found() {
    let mut run = ReflinkAt::new(OnExists::ExistsOnly);
    assert_eq!(run.step(), Step::Open(flags(false, false, false)));
    assert_eq!(run.resume(Err(Errno::ENOENT)), Step::Done(Err(ReflinkAtError::Errno(Errno::ENOENT))));
}

#[test]
fn exists_only_failed_clone_still_removes_destination() {
    let mut run = ReflinkAt::new(OnExists::ExistsOnly);
    assert_eq!(run.resume(Ok(())), Step::Clone);
    assert_eq!(run.resume(Err(Errno::EBADF)), Step::Unlink);
    assert_eq!(run.phase, AtPhase::CleaningUp(Errno::EBADF));
    assert_eq!(run.resume(Ok(())), Step::Done(Err(ReflinkAtError::Errno(Errno::EBADF))));
}

#[test]
fn failed_clone_and_failed_removal_report_both() {
    let mut run = ReflinkAt::new(OnExists::Create);
    assert_eq!(run.resume(Ok(())), Step::Clone);
    assert_eq!(run.resume(Err(Errno::EXDEV)), Step::Unlink);
    assert_eq!(
        run.resume(Err(Errno::EISDIR)),
        Step::Done(Err(ReflinkAtError::CleanupUnlink { src: Errno::EXDEV, cleanup: Errno::EISDIR }))
    );
}

#[test]
fn finished_run_keeps_its_result() {
    let mut run = ReflinkAt::new(OnExists::Create);
    assert_eq!(run.resume(Err(Errno::EACCES)), Step::Done(Err(ReflinkAtError::Errno(Errno::EACCES))));
    assert_eq!(run.resume(Ok(())), Step::Done(Err(ReflinkAtError::Errno(Errno::EACCES))));
    assert_eq!(run.resume(Err(Errno::EIO)), Step::Done(Err(ReflinkAtError::Errno(Errno::EACCES))));
}

#[test]
fn create_and_create_new_only_agree_after_open() {
    let outcomes = [Ok(()), Err(Errno::EXDEV), Err(Errno::EPERM)];
    let mut a = ReflinkAt::new(OnExists::Create);
    let mut b = ReflinkAt::new(OnExists::CreateNewOnly);
    for o in outcomes {
        assert_eq!(a.resume(o), b.resume(o));
        assert_eq!(a.phase, b.phase);
    }
}

#[test]
fn exclusive_creations_of_one_path_second_sees_exists() {
    let mut first = ReflinkAt::new(OnExists::CreateNewOnly);
    let mut second = ReflinkAt::new(OnExists::CreateNewOnly);
    assert_eq!(first.resume(Ok(())), Step::Clone);
    assert_eq!(first.resume(Ok(())), Step::Done(Ok(())));
    assert_eq!(second.resume(Err(Errno::EEXIST)), Step::Done(Err(ReflinkAtError::Errno(Errno::EEXIST))));
}

#[test]
fn unlinked_success() {
    let mut run = ReflinkUnlinked::new();
    assert_eq!(run.step(), Step::Open(flags(false, false, true)));
    assert_eq!(run.resume(Ok(())), Step::Clone);
    assert_eq!(run.resume(Ok(())), Step::Done(Ok(())));
}

#[test]
fn unlinked_failed_clone_forwards_error_without_removal() {
    let mut run = ReflinkUnlinked::new();
    assert_eq!(run.resume(Ok(())), Step::Clone);
    assert_eq!(run.resume(Err(Errno::EXDEV)), Step::Done(Err(Errno::EXDEV)));
    assert_eq!(run.phase, UnlinkedPhase::Finished(Err(Errno::EXDEV)));
}

#[test]
fn unlinked_failed_open_forwards_error() {
    let mut run = ReflinkUnlinked::new();
    assert_eq!(run.resume(Err(Errno::EOPNOTSUPP)), Step::Done(Err(Errno::EOPNOTSUPP)));
    assert_eq!(run.resume(Ok(())), Step::Done(Err(Errno::EOPNOTSUPP)));
}

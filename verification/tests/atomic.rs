use secure_file::{write_private_atomic, AtomicWritePlan, Error, Reply, Request, Step};
use std::path::PathBuf;

fn dir() -> PathBuf {
    PathBuf::from("/tmp/secure-file-atomic")
}

fn token() -> PathBuf {
    dir().join("token")
}

fn ok() -> Reply {
    Reply::Status(Ok(()))
}

fn request(step: Step<()>) -> Request {
    match step {
        Step::Perform(request) => request,
        Step::Finish(result) => panic!("unexpected finish: {result:?}"),
    }
}

fn result(step: Step<()>) -> Result<(), Error> {
    match step {
        Step::Finish(result) => result,
        Step::Perform(request) => panic!("unexpected request: {request:?}"),
    }
}

/// Runs the plan up to the creation of its temporary file, answering that
/// the destination is no link and drawing `h`; returns the temporary path.
fn create_temp(plan: &mut AtomicWritePlan, target: &PathBuf, h: u64) -> PathBuf {
    assert!(matches!(request(plan.start()), Request::IsLink(p) if p == *target));
    assert!(matches!(request(plan.resume(Reply::Answer(Ok(false)))), Request::DrawRandom));
    match request(plan.resume(Reply::Random(h))) {
        Request::CreateFile(p) => p,
        other => panic!("unexpected: {other:?}"),
    }
}

#[test]
fn atomic_write_creates_private_file() {
    let mut plan = write_private_atomic(token(), b"secret".to_vec());
    let temp = create_temp(&mut plan, &token(), 0xab);
    assert_eq!(temp, dir().join(".secure-file-00000000000000ab.tmp"));
    assert!(matches!(request(plan.resume(ok())), Request::WriteFile(d) if d == b"secret"));
    assert!(matches!(request(plan.resume(ok())), Request::SyncFile));
    assert!(matches!(request(plan.resume(ok())), Request::Rename(from, to) if from == temp && to == token()));
    assert!(result(plan.resume(ok())).is_ok());
}

#[test]
fn atomic_write_replaces_existing_file() {
    // The destination's existence changes nothing: the temporary file is
    // renamed over it.
    let mut plan = write_private_atomic(token(), b"new".to_vec());
    let temp = create_temp(&mut plan, &token(), 1);
    assert!(matches!(request(plan.resume(ok())), Request::WriteFile(d) if d == b"new"));
    request(plan.resume(ok()));
    assert!(matches!(request(plan.resume(ok())), Request::Rename(from, to) if from == temp && to == token()));
    assert!(result(plan.resume(ok())).is_ok());
}

#[test]
fn atomic_write_rejects_symlink() {
    let link = dir().join("link");
    let mut plan = write_private_atomic(link.clone(), b"overwritten".to_vec());
    assert!(matches!(request(plan.start()), Request::IsLink(p) if p == link));
    let err = result(plan.resume(Reply::Answer(Ok(true)))).unwrap_err();
    assert!(matches!(err, Error::SymlinkDetected), "unexpected: {err:?}");
}

#[test]
fn atomic_write_rejects_broken_symlink() {
    let link = dir().join("dangling");
    let mut plan = write_private_atomic(link, b"secret".to_vec());
    request(plan.start());
    let err = result(plan.resume(Reply::Answer(Ok(true)))).unwrap_err();
    assert!(matches!(err, Error::SymlinkDetected), "unexpected: {err:?}");
}

#[test]
fn atomic_write_with_missing_parent_fails() {
    let path = dir().join("missing").join("token");
    let mut plan = write_private_atomic(path.clone(), b"secret".to_vec());
    let temp = create_temp(&mut plan, &path, 2);
    assert_eq!(temp.parent(), Some(dir().join("missing").as_path()));
    let err = result(plan.resume(Reply::Status(Err(Error::NotFound)))).unwrap_err();
    assert!(matches!(err, Error::NotFound));
}

#[test]
fn atomic_write_leaves_no_temporary_files() {
    // On success the temporary file is the one renamed over the destination.
    let mut plan = write_private_atomic(token(), b"secret".to_vec());
    let temp = create_temp(&mut plan, &token(), 3);
    request(plan.resume(ok()));
    request(plan.resume(ok()));
    match request(plan.resume(ok())) {
        Request::Rename(from, to) => {
            assert_eq!(from, temp);
            assert_eq!(to, token());
        }
        other => panic!("unexpected: {other:?}"),
    }
    assert!(result(plan.resume(ok())).is_ok());
}

#[test]
fn atomic_write_to_directory_path_fails_and_cleans_up() {
    let target = dir().join("sub");
    let mut plan = write_private_atomic(target.clone(), b"secret".to_vec());
    let temp = create_temp(&mut plan, &target, 4);
    request(plan.resume(ok()));
    request(plan.resume(ok()));
    assert!(matches!(request(plan.resume(ok())), Request::Rename(..)));
    let refused = Error::Io(secure_file::IoError::other("Is a directory"));
    assert!(matches!(request(plan.resume(Reply::Status(Err(refused)))), Request::RemoveFile(p) if p == temp));
    let err = result(plan.resume(ok())).unwrap_err();
    assert!(!err.message().is_empty(), "unexpected: {err:?}");
    assert!(matches!(err, Error::Io(_)));
}

#[test]
fn atomic_write_empty_data() {
    let mut plan = write_private_atomic(token(), Vec::new());
    create_temp(&mut plan, &token(), 5);
    assert!(matches!(request(plan.resume(ok())), Request::WriteFile(d) if d.is_empty()));
    request(plan.resume(ok()));
    request(plan.resume(ok()));
    assert!(result(plan.resume(ok())).is_ok());
}

#[test]
fn atomic_write_in_read_only_dir_fails_and_cleans_up() {
    // The temporary file cannot be created, so there is nothing to remove.
    let path = dir().join("read-only").join("token");
    let mut plan = write_private_atomic(path.clone(), b"secret".to_vec());
    create_temp(&mut plan, &path, 6);
    let err = result(plan.resume(Reply::Status(Err(Error::PermissionDenied)))).unwrap_err();
    assert!(matches!(err, Error::PermissionDenied), "unexpected: {err:?}");
}

#[test]
fn atomic_write_failures_remove_the_temporary_file_first() {
    for failing in 0..3 {
        let mut plan = write_private_atomic(token(), b"secret".to_vec());
        let temp = create_temp(&mut plan, &token(), 7);
        assert!(matches!(request(plan.resume(ok())), Request::WriteFile(_)));
        for _ in 0..failing {
            request(plan.resume(ok()));
        }
        let step = plan.resume(Reply::Status(Err(Error::PermissionDenied)));
        assert!(matches!(request(step), Request::RemoveFile(p) if p == temp));
        // The first error is reported, whatever the removal answers.
        let err = result(plan.resume(Reply::Status(Err(Error::NotFound)))).unwrap_err();
        assert!(matches!(err, Error::PermissionDenied), "unexpected: {err:?}");
    }
}

#[test]
fn atomic_write_retries_a_taken_temporary_name() {
    let mut plan = write_private_atomic(token(), b"secret".to_vec());
    create_temp(&mut plan, &token(), 8);
    assert!(matches!(request(plan.resume(Reply::Status(Err(Error::AlreadyExists)))), Request::DrawRandom));
    let second = match request(plan.resume(Reply::Random(9))) {
        Request::CreateFile(p) => p,
        other => panic!("unexpected: {other:?}"),
    };
    assert_eq!(second, dir().join(".secure-file-0000000000000009.tmp"));
    assert!(matches!(request(plan.resume(ok())), Request::WriteFile(_)));
}

#[test]
fn atomic_write_passes_a_failed_link_check_on() {
    let mut plan = write_private_atomic(token(), b"secret".to_vec());
    request(plan.start());
    let err = result(plan.resume(Reply::Answer(Err(Error::PermissionDenied)))).unwrap_err();
    assert!(matches!(err, Error::PermissionDenied));
}

#[test]
fn atomic_write_to_a_root_is_invalid_input() {
    let mut plan = write_private_atomic(PathBuf::from("/"), b"secret".to_vec());
    assert!(matches!(result(plan.start()), Err(Error::InvalidInput)));
}

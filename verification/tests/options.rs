use secure_file::{Error, Reply, Request, SecureFileOptions, Step};
use std::path::PathBuf;

fn token() -> PathBuf {
    PathBuf::from("/tmp/secure-file-options/token")
}

fn performed(step: Step<()>) -> Request {
    match step {
        Step::Perform(request) => request,
        Step::Finish(result) => panic!("unexpected finish: {result:?}"),
    }
}

fn finished(step: Step<()>) -> Result<(), Error> {
    match step {
        Step::Finish(result) => result,
        Step::Perform(request) => panic!("unexpected request: {request:?}"),
    }
}

#[test]
fn options_without_access_mode_fails() {
    let mut plan = SecureFileOptions::new().read(false).write(false).open(token());
    let err = finished(plan.start()).unwrap_err();
    assert!(matches!(err, Error::InvalidInput), "unexpected: {err:?}");
}

#[test]
fn truncate_without_write_fails() {
    let mut plan = SecureFileOptions::new().truncate(true).open(token());
    let err = finished(plan.start()).unwrap_err();
    assert!(matches!(err, Error::InvalidInput), "unexpected: {err:?}");
}

#[test]
fn truncate_with_append_fails() {
    let mut plan = SecureFileOptions::new()
        .append(true)
        .truncate(true)
        .write(true)
        .open(token());
    let err = finished(plan.start()).unwrap_err();
    assert!(matches!(err, Error::InvalidInput), "unexpected: {err:?}");
}

#[test]
fn create_without_write_access_fails() {
    let mut plan = SecureFileOptions::new().create(true).open(token());
    assert!(matches!(finished(plan.start()), Err(Error::InvalidInput)));
    let mut plan = SecureFileOptions::new().create_new(true).open(token());
    assert!(matches!(finished(plan.start()), Err(Error::InvalidInput)));
    // append access is enough for creation
    let mut plan = SecureFileOptions::new().create(true).append(true).open(token());
    assert!(matches!(performed(plan.start()), Request::Probe(_)));
}

#[test]
fn defaults_open_read_only_and_verify() {
    let params = SecureFileOptions::new().validate().unwrap();
    assert!(params.read && !params.write && !params.append && !params.truncate);
    assert!(!params.create && !params.create_new && !params.follow_symlinks);
    let params = SecureFileOptions::default().validate().unwrap();
    assert!(params.read && !params.write);
}

#[test]
fn create_new_implies_create_in_the_parameters() {
    let params = SecureFileOptions::new().create_new(true).write(true).validate().unwrap();
    assert!(params.create && params.create_new && params.write);
}

#[test]
fn created_file_is_verified_even_without_verification() {
    let mut plan = SecureFileOptions::new()
        .create(true)
        .write(true)
        .verify_private(false)
        .open(token());
    assert!(matches!(performed(plan.start()), Request::Probe(p) if p == token()));
    // The path did not exist.
    let request = performed(plan.resume(Reply::Status(Err(Error::NotFound))));
    match request {
        Request::OpenFileWith(p, params) => {
            assert_eq!(p, token());
            assert!(params.create && params.write && !params.create_new);
        }
        other => panic!("unexpected request: {other:?}"),
    }
    let request = performed(plan.resume(Reply::Status(Ok(()))));
    assert!(matches!(request, Request::CheckFilePrivate));
    let err = finished(plan.resume(Reply::Answer(Ok(false)))).unwrap_err();
    assert!(matches!(err, Error::InsecurePermissions));
}

#[test]
fn existing_insecure_file_is_rejected_by_default() {
    let mut plan = SecureFileOptions::new().create(true).write(true).open(token());
    performed(plan.start());
    performed(plan.resume(Reply::Status(Ok(()))));
    assert!(matches!(performed(plan.resume(Reply::Status(Ok(())))), Request::CheckFilePrivate));
    let err = finished(plan.resume(Reply::Answer(Ok(false)))).unwrap_err();
    assert!(matches!(err, Error::InsecurePermissions), "unexpected: {err:?}");
}

#[test]
fn existing_file_is_returned_as_is_when_verification_disabled() {
    let mut plan = SecureFileOptions::new()
        .create(true)
        .write(true)
        .verify_private(false)
        .open(token());
    performed(plan.start());
    performed(plan.resume(Reply::Status(Ok(()))));
    assert!(finished(plan.resume(Reply::Status(Ok(())))).is_ok());
}

#[test]
fn create_new_is_always_verified() {
    let mut plan = SecureFileOptions::new()
        .create_new(true)
        .write(true)
        .verify_private(false)
        .open(token());
    performed(plan.start());
    performed(plan.resume(Reply::Status(Ok(()))));
    assert!(matches!(performed(plan.resume(Reply::Status(Ok(())))), Request::CheckFilePrivate));
    assert!(finished(plan.resume(Reply::Answer(Ok(true)))).is_ok());
}

#[test]
fn open_errors_are_passed_on() {
    let mut plan = SecureFileOptions::new().create_new(true).write(true).open(token());
    performed(plan.start());
    performed(plan.resume(Reply::Status(Ok(()))));
    let err = finished(plan.resume(Reply::Status(Err(Error::AlreadyExists)))).unwrap_err();
    assert!(matches!(err, Error::AlreadyExists));

    let mut plan = SecureFileOptions::new().open(token());
    performed(plan.start());
    performed(plan.resume(Reply::Status(Ok(()))));
    let err = finished(plan.resume(Reply::Status(Err(Error::SymlinkDetected)))).unwrap_err();
    assert!(matches!(err, Error::SymlinkDetected));
}

#[test]
fn follow_symlinks_is_passed_to_the_platform() {
    let mut plan = SecureFileOptions::new().follow_symlinks(true).open(token());
    performed(plan.start());
    match performed(plan.resume(Reply::Status(Ok(())))) {
        Request::OpenFileWith(_, params) => assert!(params.follow_symlinks && params.read),
        other => panic!("unexpected request: {other:?}"),
    }
}

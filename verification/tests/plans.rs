use secure_file::temp::{temp_name, TempKind, TempPlan, MAX_ATTEMPTS};
use secure_file::{
    create_dir, read_private, write_private, Error, FilePlan, IoErrorKind, Reply, Request, SecureDir,
    SecureTempDir, Step,
};
use std::path::PathBuf;

fn path() -> PathBuf {
    PathBuf::from("/tmp/secure-file-plans/entry")
}

fn ok() -> Reply {
    Reply::Status(Ok(()))
}

fn request<T: std::fmt::Debug>(step: Step<T>) -> Request {
    match step {
        Step::Perform(request) => request,
        Step::Finish(result) => panic!("unexpected finish: {result:?}"),
    }
}

fn result<T>(step: Step<T>) -> Result<T, Error> {
    match step {
        Step::Finish(result) => result,
        Step::Perform(request) => panic!("unexpected request: {request:?}"),
    }
}

#[test]
fn create_dir_asks_for_one_exclusive_creation() {
    let mut plan = create_dir(path());
    assert!(matches!(request(plan.start()), Request::CreateDir(p) if p == path()));
    let dir = result(plan.resume(ok())).unwrap();
    assert_eq!(dir.path(), &path());
}

#[test]
fn create_existing_dir_fails() {
    let mut plan = SecureDir::create(path());
    request(plan.start());
    let err = result(plan.resume(Reply::Status(Err(Error::AlreadyExists)))).unwrap_err();
    assert!(matches!(err, Error::AlreadyExists));
}

#[test]
fn open_dir_verifies_privacy() {
    let mut plan = SecureDir::open(path());
    assert!(matches!(request(plan.start()), Request::OpenDir(p) if p == path()));
    assert!(matches!(request(plan.resume(ok())), Request::CheckDirPrivate(p) if p == path()));
    assert!(result(plan.resume(Reply::Answer(Ok(true)))).is_ok());

    let mut plan = SecureDir::open(path());
    request(plan.start());
    request(plan.resume(ok()));
    let err = result(plan.resume(Reply::Answer(Ok(false)))).unwrap_err();
    assert!(matches!(err, Error::InsecurePermissions));
}

#[test]
fn open_missing_dir_fails() {
    let mut plan = SecureDir::open(path());
    request(plan.start());
    let err = result(plan.resume(Reply::Status(Err(Error::NotFound)))).unwrap_err();
    assert!(matches!(err, Error::NotFound));
}

#[test]
fn open_unchecked_dir_does_not_verify() {
    let mut plan = SecureDir::open_unchecked(path());
    request(plan.start());
    let dir = result(plan.resume(ok())).unwrap();
    assert!(matches!(dir.is_private(), Request::CheckDirPrivate(p) if p == path()));
    assert!(matches!(dir.permissions(), Request::DirPermissions(p) if p == path()));
}

#[test]
fn ensure_private_dir_tightens_then_verifies() {
    let mut plan = SecureDir::open_unchecked(path());
    request(plan.start());
    let dir = result(plan.resume(ok())).unwrap();
    let mut plan = dir.ensure_private();
    assert!(matches!(request(plan.start()), Request::TightenDir(p) if p == path()));
    assert!(matches!(request(plan.resume(ok())), Request::CheckDirPrivate(_)));
    let dir = result(plan.resume(Reply::Answer(Ok(true)))).unwrap();
    assert_eq!(dir.path(), &path());
}

#[test]
fn app_dir_reuses_and_tightens_an_existing_directory() {
    let base = PathBuf::from("/tmp/secure-file-plans");
    let mut plan = secure_file::app_dir_in(base.clone(), PathBuf::from("entry"));
    request(plan.start());
    request(plan.resume(ok()));
    assert!(matches!(
        request(plan.resume(Reply::Status(Err(Error::AlreadyExists)))),
        Request::OpenDir(p) if p == path()
    ));
    assert!(matches!(request(plan.resume(ok())), Request::TightenDir(_)));
    assert!(matches!(request(plan.resume(ok())), Request::CheckDirPrivate(_)));
    let dir = result(plan.resume(Reply::Answer(Ok(true)))).unwrap();
    assert_eq!(dir.path(), &path());
}

#[test]
fn write_private_creates_writes_and_syncs() {
    let mut plan = write_private(path(), b"secret".to_vec());
    assert!(matches!(request(plan.start()), Request::CreateFile(p) if p == path()));
    assert!(matches!(request(plan.resume(ok())), Request::WriteFile(d) if d == b"secret"));
    assert!(matches!(request(plan.resume(ok())), Request::SyncFile));
    assert!(result(plan.resume(ok())).is_ok());
}

#[test]
fn write_private_over_existing_file_tightens_and_truncates() {
    let mut plan = write_private(path(), b"updated".to_vec());
    request(plan.start());
    assert!(matches!(
        request(plan.resume(Reply::Status(Err(Error::AlreadyExists)))),
        Request::OpenFile(p, true) if p == path()
    ));
    assert!(matches!(request(plan.resume(ok())), Request::TightenFile));
    assert!(matches!(request(plan.resume(ok())), Request::CheckFilePrivate));
    assert!(matches!(request(plan.resume(Reply::Answer(Ok(true)))), Request::TruncateFile));
    assert!(matches!(request(plan.resume(ok())), Request::WriteFile(d) if d == b"updated"));
    assert!(matches!(request(plan.resume(ok())), Request::SyncFile));
    assert!(result(plan.resume(ok())).is_ok());
}

#[test]
fn write_private_stops_when_tightening_did_not_work() {
    let mut plan = write_private(path(), b"x".to_vec());
    request(plan.start());
    request(plan.resume(Reply::Status(Err(Error::AlreadyExists))));
    request(plan.resume(ok()));
    request(plan.resume(ok()));
    let err = result(plan.resume(Reply::Answer(Ok(false)))).unwrap_err();
    assert!(matches!(err, Error::InsecurePermissions));
}

#[test]
fn write_private_passes_other_errors_on() {
    let mut plan = write_private(path(), b"x".to_vec());
    request(plan.start());
    let err = result(plan.resume(Reply::Status(Err(Error::SymlinkDetected)))).unwrap_err();
    assert!(matches!(err, Error::SymlinkDetected));
}

#[test]
fn read_private_checks_then_reads() {
    let mut plan = read_private(path());
    assert!(matches!(request(plan.start()), Request::OpenFile(p, false) if p == path()));
    assert!(matches!(request(plan.resume(ok())), Request::CheckFilePrivate));
    assert!(matches!(request(plan.resume(Reply::Answer(Ok(true)))), Request::ReadFile));
    let data = result(plan.resume(Reply::Data(Ok(b"secret".to_vec())))).unwrap();
    assert_eq!(data, b"secret");
}

#[test]
fn read_private_rejects_insecure_file() {
    let mut plan = read_private(path());
    request(plan.start());
    request(plan.resume(ok()));
    let err = result(plan.resume(Reply::Answer(Ok(false)))).unwrap_err();
    assert!(matches!(err, Error::InsecurePermissions));
}

#[test]
fn file_plans_verify_after_their_action() {
    let mut plan = FilePlan::open(path());
    assert!(matches!(request(plan.start()), Request::OpenFile(p, false) if p == path()));
    assert!(matches!(request(plan.resume(ok())), Request::CheckFilePrivate));
    assert!(result(plan.resume(Reply::Answer(Ok(true)))).is_ok());

    let mut plan = FilePlan::ensure_private(path());
    assert!(matches!(request(plan.start()), Request::TightenFile));
    assert!(matches!(request(plan.resume(ok())), Request::CheckFilePrivate));
    assert!(matches!(
        result(plan.resume(Reply::Answer(Ok(false)))),
        Err(Error::InsecurePermissions)
    ));
}

#[test]
fn temp_names_are_hidden_and_hexadecimal() {
    assert_eq!(temp_name("secure-file", 0), ".secure-file-0000000000000000.tmp");
    assert_eq!(temp_name("secure-file", 0x1234_abcd), ".secure-file-000000001234abcd.tmp");
    assert_eq!(temp_name("x", u64::MAX), ".x-ffffffffffffffff.tmp");
    assert_eq!(temp_name("p", 0xfedc_ba98_7654_3210), ".p-fedcba9876543210.tmp");
}

#[test]
fn temp_dir_is_created_under_a_drawn_name() {
    let dir = PathBuf::from("/tmp/secure-file-plans");
    let mut plan = SecureTempDir::new_in(dir.clone());
    assert!(matches!(request(plan.start()), Request::DrawRandom));
    let expected = dir.join(".secure-file-00000000000000ff.tmp");
    assert!(matches!(request(plan.resume(Reply::Random(0xff))), Request::CreateDir(p) if p == expected));
    let temp = result(plan.resume(ok())).unwrap();
    assert_eq!(temp.path(), &expected);
    assert!(temp.delete_on_drop());
    assert_eq!(temp.keep(), expected);
}

#[test]
fn temp_dir_new_in_missing_parent_fails() {
    let mut plan = SecureTempDir::new_in(PathBuf::from("/tmp/secure-file-plans/missing"));
    request(plan.start());
    request(plan.resume(Reply::Random(1)));
    let err = result(plan.resume(Reply::Status(Err(Error::NotFound)))).unwrap_err();
    assert!(matches!(err, Error::NotFound));
}

#[test]
fn temp_file_retries_taken_names_then_gives_up() {
    let mut plan = TempPlan::new(TempKind::File, PathBuf::from("/tmp"));
    assert!(matches!(request(plan.start()), Request::DrawRandom));
    let mut creations = 0;
    loop {
        match plan.resume(Reply::Random(7)) {
            Step::Perform(Request::CreateFile(_)) => creations += 1,
            other => panic!("unexpected: {other:?}"),
        }
        match plan.resume(Reply::Status(Err(Error::AlreadyExists))) {
            Step::Perform(Request::DrawRandom) => continue,
            Step::Finish(Err(Error::Io(e))) => {
                assert_eq!(e.kind, IoErrorKind::AlreadyExists);
                assert_eq!(e.message, "could not create a unique temporary file");
                break;
            }
            other => panic!("unexpected: {other:?}"),
        }
    }
    assert_eq!(creations, MAX_ATTEMPTS);
}

#[test]
fn temp_file_succeeds_after_a_taken_name() {
    let mut plan = TempPlan::new(TempKind::File, PathBuf::from("/tmp"));
    request(plan.start());
    request(plan.resume(Reply::Random(1)));
    assert!(matches!(request(plan.resume(Reply::Status(Err(Error::AlreadyExists)))), Request::DrawRandom));
    let second = match request(plan.resume(Reply::Random(2))) {
        Request::CreateFile(p) => p,
        other => panic!("unexpected: {other:?}"),
    };
    assert_eq!(second, PathBuf::from("/tmp/.secure-file-0000000000000002.tmp"));
    assert_eq!(result(plan.resume(ok())).unwrap(), second);
}

#[test]
fn different_numbers_give_different_temp_names() {
    assert_ne!(temp_name("secure-file", 1), temp_name("secure-file", 2));
    assert_ne!(temp_name("secure-file", 1 << 60), temp_name("secure-file", 1 << 56));
}

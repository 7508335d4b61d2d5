use secure_file::{app_dir, app_dir_in, platform_data_dir_with, DataDirEnv, Error, Platform, Request, SecureDir, Step};
use std::path::PathBuf;

fn env(pairs: &[(&str, &str)]) -> DataDirEnv {
    let get = |key: &str| pairs.iter().find(|(k, _)| *k == key).map(|(_, v)| PathBuf::from(v));
    DataDirEnv {
        xdg_data_home: get("XDG_DATA_HOME"),
        home: get("HOME"),
        local_app_data: get("LOCALAPPDATA"),
        user_profile: get("USERPROFILE"),
    }
}

fn base() -> PathBuf {
    PathBuf::from("/tmp/secure-file-appdir/base")
}

fn first_error(step: Step<SecureDir>) -> Error {
    match step {
        Step::Finish(Err(err)) => err,
        other => panic!("unexpected: {other:?}"),
    }
}

#[test]
fn app_dir_in_rejects_path_separator() {
    let err = first_error(app_dir_in(base(), PathBuf::from("a/b")).start());
    assert!(matches!(err, Error::InvalidInput), "unexpected: {err:?}");
}

#[test]
fn app_dir_in_rejects_parent_dir() {
    let err = first_error(app_dir_in(base(), PathBuf::from("..")).start());
    assert!(matches!(err, Error::InvalidInput), "unexpected: {err:?}");
}

#[test]
fn app_dir_in_rejects_absolute_path() {
    let err = first_error(app_dir_in(base(), PathBuf::from("/etc/evil")).start());
    assert!(matches!(err, Error::InvalidInput), "unexpected: {err:?}");
}

#[test]
fn app_dir_in_rejects_empty_name() {
    let err = first_error(app_dir_in(base(), PathBuf::from("")).start());
    assert!(matches!(err, Error::InvalidInput), "unexpected: {err:?}");
}

#[test]
fn app_dir_in_rejects_current_dir() {
    let err = first_error(app_dir_in(base(), PathBuf::from(".")).start());
    assert!(matches!(err, Error::InvalidInput), "unexpected: {err:?}");
}

#[test]
fn app_dir_in_creates_base_then_directory() {
    let mut plan = app_dir_in(base(), PathBuf::from("myapp"));
    match plan.start() {
        Step::Perform(Request::CreateDirAll(p)) => assert_eq!(p, base()),
        other => panic!("unexpected: {other:?}"),
    }
    match plan.resume(secure_file::Reply::Status(Ok(()))) {
        Step::Perform(Request::CreateDir(p)) => assert_eq!(p, base().join("myapp")),
        other => panic!("unexpected: {other:?}"),
    }
    match plan.resume(secure_file::Reply::Status(Ok(()))) {
        Step::Finish(Ok(dir)) => assert_eq!(dir.path(), &base().join("myapp")),
        other => panic!("unexpected: {other:?}"),
    }
}

#[test]
fn app_dir_in_accepts_a_plain_name() {
    assert!(secure_file::appdir::validate_name(&PathBuf::from("myapp")).is_ok());
    assert!(secure_file::appdir::validate_name(&PathBuf::from("my.app")).is_ok());
    assert!(secure_file::appdir::validate_name(&PathBuf::from("myapp/")).is_ok());
}

#[test]
fn app_dir_without_data_dir_fails() {
    let err = first_error(app_dir(Err(Error::NotFound), PathBuf::from("myapp")).start());
    assert!(matches!(err, Error::NotFound));
}

#[test]
fn windows_prefers_localappdata() {
    let e = env(&[("LOCALAPPDATA", r"C:\Data"), ("USERPROFILE", r"C:\Users\me")]);
    assert_eq!(
        platform_data_dir_with(Platform::Windows, e).unwrap(),
        PathBuf::from(r"C:\Data")
    );
}

#[test]
fn windows_falls_back_to_userprofile() {
    let e = env(&[("USERPROFILE", r"C:\Users\me")]);
    assert_eq!(
        platform_data_dir_with(Platform::Windows, e).unwrap(),
        PathBuf::from(r"C:\Users\me").join("AppData").join("Local")
    );
}

#[test]
fn windows_without_any_env_fails() {
    let e = env(&[]);
    assert!(matches!(platform_data_dir_with(Platform::Windows, e), Err(Error::NotFound)));
}

#[test]
fn macos_uses_home() {
    let e = env(&[("HOME", "/Users/me")]);
    assert_eq!(
        platform_data_dir_with(Platform::MacOs, e).unwrap(),
        PathBuf::from("/Users/me/Library/Application Support")
    );
}

#[test]
fn macos_without_home_fails() {
    let e = env(&[]);
    assert!(matches!(platform_data_dir_with(Platform::MacOs, e), Err(Error::NotFound)));
}

#[test]
fn linux_prefers_xdg_data_home() {
    let e = env(&[("XDG_DATA_HOME", "/xdg"), ("HOME", "/home/me")]);
    assert_eq!(platform_data_dir_with(Platform::Unix, e).unwrap(), PathBuf::from("/xdg"));
}

#[test]
fn linux_falls_back_to_home() {
    let e = env(&[("HOME", "/home/me")]);
    assert_eq!(
        platform_data_dir_with(Platform::Unix, e).unwrap(),
        PathBuf::from("/home/me/.local/share")
    );
}

#[test]
fn linux_empty_xdg_falls_back_to_home() {
    let e = env(&[("XDG_DATA_HOME", ""), ("HOME", "/home/me")]);
    assert_eq!(
        platform_data_dir_with(Platform::Unix, e).unwrap(),
        PathBuf::from("/home/me/.local/share")
    );
}

#[test]
fn linux_without_any_env_fails() {
    let e = env(&[]);
    assert!(matches!(platform_data_dir_with(Platform::Unix, e), Err(Error::NotFound)));
}

#[test]
fn windows_empty_localappdata_falls_back_to_userprofile() {
    let e = env(&[("LOCALAPPDATA", ""), ("USERPROFILE", "/profile")]);
    assert_eq!(
        platform_data_dir_with(Platform::Windows, e).unwrap(),
        PathBuf::from("/profile/AppData/Local")
    );
}

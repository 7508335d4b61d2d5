use secure_file::{Error, IoError, IoErrorKind};
use std::error::Error as StdError;
use std::io::{self, ErrorKind};

#[test]
fn display_messages_are_non_empty() {
    let variants = [
        Error::Io(IoError::other("boom")),
        Error::PermissionDenied,
        Error::InsecurePermissions,
        Error::SymlinkDetected,
        Error::AlreadyExists,
    ];

    for err in variants {
        assert!(!err.message().is_empty(), "empty display for {err:?}");
    }
}

#[test]
fn source_is_only_set_for_io() {
    let io_err = Error::Io(IoError::other("boom"));
    assert!(io_err.source().is_some());

    assert!(Error::PermissionDenied.source().is_none());
    assert!(Error::InsecurePermissions.source().is_none());
    assert!(Error::SymlinkDetected.source().is_none());
    assert!(Error::AlreadyExists.source().is_none());
}

#[test]
fn io_error_kinds_map_to_specific_variants() {
    let already = Error::from(io::Error::new(ErrorKind::AlreadyExists, "x"));
    assert!(matches!(already, Error::AlreadyExists));

    let denied = Error::from(io::Error::new(ErrorKind::PermissionDenied, "x"));
    assert!(matches!(denied, Error::PermissionDenied));

    let missing = Error::from(io::Error::new(ErrorKind::NotFound, "x"));
    assert!(matches!(missing, Error::Io(_)));
}

#[test]
fn error_converts_back_to_io_error() {
    assert_eq!(
        io::Error::from(Error::AlreadyExists).kind(),
        ErrorKind::AlreadyExists
    );
    assert_eq!(
        io::Error::from(Error::PermissionDenied).kind(),
        ErrorKind::PermissionDenied
    );
    assert_eq!(
        io::Error::from(Error::InsecurePermissions).kind(),
        ErrorKind::PermissionDenied
    );
    assert_eq!(
        io::Error::from(Error::SymlinkDetected).kind(),
        ErrorKind::Other
    );

    let io_err = io::Error::new(ErrorKind::NotFound, "gone");
    assert_eq!(
        io::Error::from(Error::Io(IoError::from(io_err))).kind(),
        ErrorKind::NotFound
    );
}

#[test]
fn error_is_a_std_error_trait_object() {
    let err: Box<dyn StdError> = Box::new(io::Error::from(Error::SymlinkDetected));
    assert!(!err.to_string().is_empty());
    assert!(!Error::SymlinkDetected.message().is_empty());
}

#[test]
fn symlink_loop_code_maps_to_symlink_detected() {
    let err = Error::from(io::Error::from_raw_os_error(libc::ELOOP));
    assert!(matches!(err, Error::SymlinkDetected));

    let err = Error::from_io_error(IoError {
        kind: IoErrorKind::Other,
        code: Some(libc::ELOOP),
        message: String::from("loop"),
        origin: None,
    });
    assert!(matches!(err, Error::SymlinkDetected));

    let other_code = Error::from(io::Error::from_raw_os_error(libc::ENOENT));
    assert!(matches!(other_code, Error::Io(IoError { kind: IoErrorKind::NotFound, .. })));
}

#[test]
fn std_error_parts_are_read() {
    let parts = IoError::from(io::Error::new(ErrorKind::InvalidInput, "bad thing"));
    assert_eq!(parts.kind, IoErrorKind::InvalidInput);
    assert_eq!(parts.code, None);
    assert_eq!(parts.message, "bad thing");

    let parts = IoError::from(io::Error::from_raw_os_error(libc::EACCES));
    assert_eq!(parts.kind, IoErrorKind::PermissionDenied);
    assert_eq!(parts.code, Some(libc::EACCES));
    assert!(!parts.message.is_empty());
}

#[test]
fn io_error_round_trips_through_std() {
    let original = IoError::new(IoErrorKind::InvalidInput, "bad thing");
    let back = IoError::from(original.into_std());
    assert_eq!(back.kind, IoErrorKind::InvalidInput);
    assert_eq!(back.message, "bad thing");

    let coded = IoError::from(io::Error::from_raw_os_error(libc::ENOENT));
    let back = IoError::from(coded.into_std());
    assert_eq!(back.kind, IoErrorKind::NotFound);
    assert_eq!(back.code, Some(libc::ENOENT));
}

#[test]
fn into_io_error_gives_kinds_and_texts() {
    let e = Error::InsecurePermissions.into_io_error();
    assert_eq!(e.kind, IoErrorKind::PermissionDenied);
    assert_eq!(e.code, None);
    assert_eq!(e.message, "file or directory is accessible by other users");

    let e = Error::SymlinkDetected.into_io_error();
    assert_eq!(e.kind, IoErrorKind::Other);
    assert_eq!(e.message, "symbolic link detected");

    let e = Error::NotFound.into_io_error();
    assert_eq!(e.kind, IoErrorKind::NotFound);

    let e = Error::InvalidInput.into_io_error();
    assert_eq!(e.kind, IoErrorKind::InvalidInput);

    let e = Error::Io(IoError::other("boom")).into_io_error();
    assert_eq!(e.kind, IoErrorKind::Other);
    assert_eq!(e.message, "boom");
}

#[test]
fn round_trip_keeps_errors_with_an_os_counterpart() {
    for err in [Error::AlreadyExists, Error::PermissionDenied] {
        let again = Error::from_io_error(err.into_io_error());
        assert!(matches!(again, Error::AlreadyExists | Error::PermissionDenied));
    }
    let again = Error::from_io_error(Error::AlreadyExists.into_io_error());
    assert!(matches!(again, Error::AlreadyExists));
    let again = Error::from_io_error(Error::PermissionDenied.into_io_error());
    assert!(matches!(again, Error::PermissionDenied));
    let again = Error::from_io_error(Error::Io(IoError::other("boom")).into_io_error());
    assert!(matches!(&again, Error::Io(e) if e.message == "boom"));
    // Insecure permissions have no counterpart of their own.
    let again = Error::from_io_error(Error::InsecurePermissions.into_io_error());
    assert!(matches!(again, Error::PermissionDenied));
}

#[test]
fn messages_match_the_documented_texts() {
    assert_eq!(Error::PermissionDenied.message(), "permission denied");
    assert_eq!(Error::AlreadyExists.message(), "file or directory already exists");
    assert_eq!(Error::NotFound.message(), "file or directory not found");
    assert_eq!(Error::InvalidInput.message(), "invalid input");
    assert_eq!(Error::Io(IoError::other("boom")).message(), "boom");
}

#[test]
fn error_to_std_keeps_code_and_kind() {
    let coded = Error::Io(IoError::from(io::Error::from_raw_os_error(libc::ENOENT)));
    let back = io::Error::from(coded);
    assert_eq!(back.raw_os_error(), Some(libc::ENOENT));
    assert_eq!(back.kind(), ErrorKind::NotFound);

    let back = io::Error::from(Error::AlreadyExists);
    assert_eq!(back.raw_os_error(), None);
    assert_eq!(back.to_string(), "already exists");
}

#[test]
fn std_kinds_survive_a_round_trip() {
    for kind in [ErrorKind::NotFound, ErrorKind::AlreadyExists, ErrorKind::PermissionDenied, ErrorKind::InvalidInput] {
        let back = io::Error::from(Error::from(io::Error::new(kind, "x")));
        assert_eq!(back.kind(), kind);
    }
}

#[test]
fn io_errors_of_any_kind_come_back_unchanged() {
    let back = io::Error::from(Error::from(io::Error::new(ErrorKind::TimedOut, "slow")));
    assert_eq!(back.kind(), ErrorKind::TimedOut);
    assert_eq!(back.to_string(), "slow");
    let err = Error::from(io::Error::new(ErrorKind::TimedOut, "slow"));
    assert_eq!(err.kind(), IoErrorKind::Other);
    assert_eq!(Error::InsecurePermissions.kind(), IoErrorKind::PermissionDenied);
    assert_eq!(Error::SymlinkDetected.kind(), IoErrorKind::Other);
    assert_eq!(Error::NotFound.kind(), IoErrorKind::NotFound);
}

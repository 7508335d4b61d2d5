use secure_file::platform::{
    aligned_words, check_dir_attributes, check_file_attributes, check_unix_kind, unix_dir_flags,
    unix_file_flags, UnixOpenFlags,
};
use secure_file::{Error, OpenParams};

fn params() -> OpenParams {
    OpenParams {
        read: false,
        write: false,
        append: false,
        truncate: false,
        create: false,
        create_new: false,
        follow_symlinks: false,
    }
}

#[test]
fn access_mask_combines_requested_rights() {
    assert_eq!(OpenParams { read: true, ..params() }.access_mask(), 0x8000_0000);
    assert_eq!(OpenParams { write: true, ..params() }.access_mask(), 0x4000_0000);
    assert_eq!(OpenParams { append: true, ..params() }.access_mask(), 0x4);
    assert_eq!(
        OpenParams { read: true, write: true, append: true, ..params() }.access_mask(),
        0xC000_0004
    );
    assert_eq!(params().access_mask(), 0);
}

#[test]
fn disposition_follows_creation_and_truncation() {
    assert_eq!(OpenParams { create_new: true, create: true, truncate: true, ..params() }.disposition(), 1);
    assert_eq!(OpenParams { create: true, truncate: true, ..params() }.disposition(), 2);
    assert_eq!(OpenParams { create: true, ..params() }.disposition(), 4);
    assert_eq!(OpenParams { truncate: true, ..params() }.disposition(), 5);
    assert_eq!(params().disposition(), 3);
}

#[test]
fn flags_open_the_reparse_point_unless_following() {
    assert_eq!(params().flags(), 0x80 | 0x20_0000);
    assert_eq!(OpenParams { follow_symlinks: true, ..params() }.flags(), 0x80);
}

#[test]
fn create_and_open_parameters() {
    let c = OpenParams::for_create();
    assert!(c.read && c.write && c.create_new && !c.create && !c.follow_symlinks);
    assert!(c.creates());
    let o = OpenParams::for_open(true);
    assert!(o.read && o.write && !o.creates());
    let o = OpenParams::for_open(false);
    assert!(o.read && !o.write);
}

#[test]
fn file_attributes_reject_links_and_directories() {
    assert!(matches!(check_file_attributes(0x400, false), Err(Error::SymlinkDetected)));
    assert!(check_file_attributes(0x400, true).is_ok());
    assert!(matches!(check_file_attributes(0x10, true), Err(Error::InvalidInput)));
    assert!(matches!(check_file_attributes(0x410, false), Err(Error::SymlinkDetected)));
    assert!(check_file_attributes(0x80, false).is_ok());
}

#[test]
fn dir_attributes_require_a_real_directory() {
    assert!(matches!(check_dir_attributes(0x410), Err(Error::SymlinkDetected)));
    assert!(matches!(check_dir_attributes(0x80), Err(Error::InvalidInput)));
    assert!(check_dir_attributes(0x10).is_ok());
}

#[test]
fn aligned_words_round_up() {
    assert_eq!(aligned_words(0), 0);
    assert_eq!(aligned_words(1), 1);
    assert_eq!(aligned_words(8), 1);
    assert_eq!(aligned_words(9), 2);
    assert_eq!(aligned_words(28), 4);
}

// The values Linux gives `O_NOFOLLOW`, `O_CLOEXEC` and `O_DIRECTORY`.
const LINUX_FLAGS: UnixOpenFlags =
    UnixOpenFlags { no_follow: 0o400000, close_on_exec: 0o2000000, directory: 0o200000 };

#[test]
fn unix_flags_reject_links_unless_following() {
    assert_eq!(unix_file_flags(LINUX_FLAGS, false), 0o400000 | 0o2000000);
    assert_eq!(unix_file_flags(LINUX_FLAGS, true), 0o2000000);
    assert_eq!(unix_dir_flags(LINUX_FLAGS), 0o400000 | 0o2000000 | 0o200000);
}

#[test]
fn unix_kind_check_rejects_links_first() {
    assert!(matches!(check_unix_kind(true, false, false), Err(Error::SymlinkDetected)));
    assert!(matches!(check_unix_kind(true, true, true), Err(Error::SymlinkDetected)));
    assert!(check_unix_kind(false, false, false).is_ok());
    assert!(check_unix_kind(false, true, true).is_ok());
}

#[test]
fn unix_kind_check_rejects_the_wrong_kind_as_invalid_input() {
    match check_unix_kind(false, true, false) {
        Err(Error::Io(e)) => {
            assert_eq!(e.kind, secure_file::IoErrorKind::InvalidInput);
            assert_eq!(e.message, "path is a directory, not a file");
        }
        other => panic!("unexpected: {other:?}"),
    }
    match check_unix_kind(false, false, true) {
        Err(Error::Io(e)) => {
            assert_eq!(e.kind, secure_file::IoErrorKind::InvalidInput);
            assert_eq!(e.message, "path is not a directory");
        }
        other => panic!("unexpected: {other:?}"),
    }
}

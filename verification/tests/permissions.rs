use secure_file::permissions::{AceEntry, DIR_MODE, FILE_MODE};
use secure_file::SecurePermissions;

fn allow(mask: u32, for_user: bool) -> AceEntry {
    AceEntry { ace_type: 0, mask, for_user }
}

#[test]
fn created_file_reports_owner_only() {
    let permissions = SecurePermissions::from_mode(0o100000 | FILE_MODE);
    assert!(permissions.owner_only);
    assert!(permissions.is_owner_only());
}

#[test]
fn created_file_owner_can_read_and_write() {
    let permissions = SecurePermissions::from_mode(FILE_MODE);
    assert!(permissions.owner_read);
    assert!(permissions.owner_write);
    assert!(!permissions.owner_execute);
}

#[test]
fn created_dir_owner_can_execute() {
    let permissions = SecurePermissions::from_mode(0o040000 | DIR_MODE);
    assert!(permissions.owner_read);
    assert!(permissions.owner_write);
    assert!(permissions.owner_execute);
}

#[test]
fn insecure_file_reports_not_owner_only() {
    assert!(!SecurePermissions::from_mode(0o644).owner_only);
    assert!(!SecurePermissions::from_mode(0o604).owner_only);
    assert!(!SecurePermissions::from_mode(0o640).owner_only);
}

#[test]
fn created_dir_reports_owner_only() {
    assert!(SecurePermissions::from_mode(DIR_MODE).owner_only);
}

#[test]
fn insecure_dir_reports_not_owner_only() {
    assert!(!SecurePermissions::from_mode(0o755).owner_only);
}

#[test]
fn unix_created_file_is_mode_600() {
    assert_eq!(FILE_MODE, 0o600);
}

#[test]
fn unix_created_dir_is_mode_700() {
    assert_eq!(DIR_MODE, 0o700);
}

#[test]
fn mode_without_owner_bits_grants_nothing_to_the_owner() {
    let p = SecurePermissions::from_mode(0o000);
    assert_eq!(
        p,
        SecurePermissions {
            owner_only: true,
            owner_read: false,
            owner_write: false,
            owner_execute: false,
        }
    );
}

#[test]
fn no_access_grants_nothing() {
    let p = SecurePermissions::no_access();
    assert!(!p.owner_only && !p.owner_read && !p.owner_write && !p.owner_execute);
}

#[test]
fn owner_only_dacl_is_private_with_full_access() {
    // FILE_ALL_ACCESS for the current user only.
    let p = SecurePermissions::from_aces(&vec![allow(0x1F01FF, true)]);
    assert_eq!(
        p,
        SecurePermissions {
            owner_only: true,
            owner_read: true,
            owner_write: true,
            owner_execute: true,
        }
    );
}

#[test]
fn explicit_deny_ace_does_not_mark_file_insecure() {
    let deny_other = AceEntry { ace_type: 1, mask: 0x8000_0000, for_user: false };
    let p = SecurePermissions::from_aces(&vec![allow(0x1F01FF, true), deny_other]);
    assert!(p.owner_only, "a deny ACE grants nobody access, so the file is still owner-only");
}

#[test]
fn explicit_other_allow_ace_is_detected() {
    let p = SecurePermissions::from_aces(&vec![allow(0x1F01FF, true), allow(0x8000_0000, false)]);
    assert!(!p.owner_only, "another principal has an allow ACE");
}

#[test]
fn object_allow_ace_is_treated_as_another_principal() {
    let object = AceEntry { ace_type: 5, mask: 0, for_user: true };
    let p = SecurePermissions::from_aces(&vec![allow(0x1F01FF, true), object]);
    assert!(!p.owner_only);
}

#[test]
fn owner_rights_come_from_generic_and_specific_bits() {
    // GENERIC_READ only
    let p = SecurePermissions::from_aces(&vec![allow(0x8000_0000, true)]);
    assert!(p.owner_read && !p.owner_write && !p.owner_execute);
    // FILE_APPEND_DATA only counts as write access
    let p = SecurePermissions::from_aces(&vec![allow(0x4, true)]);
    assert!(!p.owner_read && p.owner_write && !p.owner_execute);
    // GENERIC_EXECUTE plus FILE_READ_DATA from two entries
    let p = SecurePermissions::from_aces(&vec![allow(0x2000_0000, true), allow(0x1, true)]);
    assert!(p.owner_read && !p.owner_write && p.owner_execute);
    // rights granted to others are not the owner's
    let p = SecurePermissions::from_aces(&vec![allow(0x1F01FF, false)]);
    assert!(!p.owner_read && !p.owner_write && !p.owner_execute && !p.owner_only);
}

#[test]
fn empty_dacl_is_owner_only_without_rights() {
    let p = SecurePermissions::from_aces(&vec![]);
    assert!(p.owner_only && !p.owner_read);
}

#[test]
fn unreadable_dacl_is_no_access() {
    assert_eq!(SecurePermissions::from_dacl(&None), SecurePermissions::no_access());
    let p = SecurePermissions::from_dacl(&Some(vec![allow(0x1F01FF, true)]));
    assert!(p.owner_only && p.owner_read);
}

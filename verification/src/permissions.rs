use vstd::prelude::*;

use crate::platform::{
    file_append_data, file_execute, file_read_data, file_write_data, generic_execute, generic_read,
    generic_write,
};

verus! {

/// Unix permission bits of a newly created private file (`0600`).
pub const FILE_MODE: u32 = 0o600;

/// Unix permission bits of a newly created private directory (`0700`).
pub const DIR_MODE: u32 = 0o700;

/// The Unix permission bits that grant access to the group or to others.
pub const GROUP_OTHER_BITS: u32 = 0o077;

/// Windows ACE type of an access-allowed entry.
pub const ACCESS_ALLOWED_ACE_TYPE: u8 = 0;

/// Windows ACE type of an access-allowed object entry.
pub const ACCESS_ALLOWED_OBJECT_ACE_TYPE: u8 = 5;

/// A platform-independent view of a file or directory's permissions.
///
/// On Unix the `owner_*` fields reflect the owner permission bits; on Windows
/// they reflect the access granted to the current user by the discretionary
/// access control list (DACL).
#[derive(Debug, Clone, Copy, PartialEq, Eq, Hash, Structural)]
pub struct SecurePermissions {
    /// `true` when only the owner can access the resource.
    pub owner_only: bool,
    /// `true` when the owner may read the resource.
    pub owner_read: bool,
    /// `true` when the owner may write to the resource.
    pub owner_write: bool,
    /// `true` when the owner may execute or traverse the resource.
    pub owner_execute: bool,
}

/// One entry of a Windows DACL, as far as the permission check reads it:
/// its type, its access mask, and whether its SID is the current user's.
#[derive(Debug, Clone, Copy, PartialEq, Eq, Structural)]
pub struct AceEntry {
    pub ace_type: u8,
    pub mask: u32,
    pub for_user: bool,
}

/// The Windows rights that let the owner read (`FILE_READ_DATA | GENERIC_READ`).
pub open spec fn read_rights() -> u32 {
    0x8000_0001u32
}

/// The Windows rights that let the owner write
/// (`FILE_WRITE_DATA | FILE_APPEND_DATA | GENERIC_WRITE`).
pub open spec fn write_rights() -> u32 {
    0x4000_0006u32
}

/// The Windows rights that let the owner execute
/// (`FILE_EXECUTE | GENERIC_EXECUTE`).
pub open spec fn execute_rights() -> u32 {
    0x2000_0020u32
}

/// The permissions that Unix mode bits `mode` grant.
pub open spec fn mode_permissions(mode: u32) -> SecurePermissions {
    SecurePermissions {
        owner_only: mode & 0o077u32 == 0,
        owner_read: mode & 0o400u32 != 0,
        owner_write: mode & 0o200u32 != 0,
        owner_execute: mode & 0o100u32 != 0,
    }
}

/// Whether an entry grants access to the current user.
pub open spec fn grants_user(a: AceEntry) -> bool {
    a.ace_type == ACCESS_ALLOWED_ACE_TYPE && a.for_user
}

/// Whether an entry grants access, or may grant access, to someone else.
pub open spec fn grants_other(a: AceEntry) -> bool {
    (a.ace_type == ACCESS_ALLOWED_ACE_TYPE && !a.for_user) || a.ace_type
        == ACCESS_ALLOWED_OBJECT_ACE_TYPE
}

/// The union of the access masks that the entries grant the current user.
pub open spec fn user_mask(aces: Seq<AceEntry>) -> u32
    decreases aces.len(),
{
    if aces.len() == 0 {
        0
    } else {
        let rest = user_mask(aces.drop_last());
        if grants_user(aces.last()) {
            rest | aces.last().mask
        } else {
            rest
        }
    }
}

/// Whether some entry grants access to someone other than the current user.
pub open spec fn any_other(aces: Seq<AceEntry>) -> bool {
    exists|i: int| 0 <= i < aces.len() && grants_other(#[trigger] aces[i])
}

/// The permissions that a readable DACL with entries `aces` grants.
pub open spec fn dacl_permissions(aces: Seq<AceEntry>) -> SecurePermissions {
    let mask = user_mask(aces);
    SecurePermissions {
        owner_only: !any_other(aces),
        owner_read: mask & read_rights() != 0,
        owner_write: mask & write_rights() != 0,
        owner_execute: mask & execute_rights() != 0,
    }
}

/// The permissions reported when a DACL cannot be read or is NULL: nothing
/// is granted and nothing is owner-only.
pub open spec fn no_access_permissions() -> SecurePermissions {
    SecurePermissions {
        owner_only: false,
        owner_read: false,
        owner_write: false,
        owner_execute: false,
    }
}

impl SecurePermissions {
    /// Returns `true` when only the owner can access the resource.
    pub fn is_owner_only(&self) -> (r: bool)
        ensures
            r == self.owner_only,
    {
        self.owner_only
    }

    /// The permissions that grant nothing; reported when the access control
    /// list cannot be read.
    pub fn no_access() -> (r: SecurePermissions)
        ensures
            r == no_access_permissions(),
    {
        SecurePermissions {
            owner_only: false,
            owner_read: false,
            owner_write: false,
            owner_execute: false,
        }
    }

    /// Reads Unix mode bits: owner-only when no group or other bit is set,
    /// and the owner's read, write and execute bits.
    pub fn from_mode(mode: u32) -> (r: SecurePermissions)
        ensures
            r == mode_permissions(mode),
    {
        SecurePermissions {
            owner_only: mode & GROUP_OTHER_BITS == 0,
            owner_read: mode & 0o400 != 0,
            owner_write: mode & 0o200 != 0,
            owner_execute: mode & 0o100 != 0,
        }
    }

    /// Reads a Windows DACL: `None` stands for a DACL that is absent, NULL or
    /// unreadable, which grants everyone access and so is never owner-only.
    /// Otherwise the resource is owner-only when no entry allows access to
    /// anyone else, and the owner's rights are those of the entries that
    /// allow the current user. Deny entries and other types grant nothing.
    pub fn from_dacl(aces: &Option<Vec<AceEntry>>) -> (r: SecurePermissions)
        ensures
            r == match aces {
                None => no_access_permissions(),
                Some(v) => dacl_permissions(v@),
            },
    {
        match aces {
            None => SecurePermissions::no_access(),
            Some(v) => SecurePermissions::from_aces(v),
        }
    }

    /// The permissions that a readable DACL with entries `aces` grants.
    pub fn from_aces(aces: &Vec<AceEntry>) -> (r: SecurePermissions)
        ensures
            r == dacl_permissions(aces@),
    {
        let mut mask: u32 = 0;
        let mut others = false;
        let mut i: usize = 0;
        while i < aces.len()
            invariant
                i <= aces.len(),
                mask == user_mask(aces@.take(i as int)),
                others == any_other(aces@.take(i as int)),
            decreases aces.len() - i,
        {
            let a = aces[i];
            proof {
                assert(aces@.take(i + 1).drop_last() =~= aces@.take(i as int));
                assert(aces@.take(i + 1).last() == a);
            }
            if a.ace_type == ACCESS_ALLOWED_ACE_TYPE {
                if a.for_user {
                    mask = mask | a.mask;
                } else {
                    others = true;
                }
            } else if a.ace_type == ACCESS_ALLOWED_OBJECT_ACE_TYPE {
                others = true;
            }
            proof {
                let s = aces@.take(i + 1);
                if grants_other(a) {
                    assert(grants_other(s[i as int]));
                } else {
                    assert forall|j: int| 0 <= j < s.len() && grants_other(#[trigger] s[j]) implies any_other(
                        aces@.take(i as int),
                    ) by {
                        assert(j < i);
                        assert(aces@.take(i as int)[j] == s[j]);
                    }
                }
                if any_other(aces@.take(i as int)) {
                    let j = choose|j: int|
                        0 <= j < i && grants_other(#[trigger] aces@.take(i as int)[j]);
                    assert(s[j] == aces@.take(i as int)[j]);
                }
            }
            i += 1;
        }
        proof {
            assert(aces@.take(aces.len() as int) =~= aces@);
        }
        let read = file_read_data() | generic_read();
        let write = file_write_data() | file_append_data() | generic_write();
        let exec = file_execute() | generic_execute();
        assert(1u32 | 0x8000_0000u32 == 0x8000_0001u32) by (bit_vector);
        assert(2u32 | 4u32 | 0x4000_0000u32 == 0x4000_0006u32) by (bit_vector);
        assert(0x20u32 | 0x2000_0000u32 == 0x2000_0020u32) by (bit_vector);
        SecurePermissions {
            owner_only: !others,
            owner_read: mask & read != 0,
            owner_write: mask & write != 0,
            owner_execute: mask & exec != 0,
        }
    }
}

/// Law: a private file's mode (`0600`) is owner-only and lets the owner
/// read and write but not execute.
pub proof fn lemma_file_mode_is_private()
    ensures
        mode_permissions(FILE_MODE) == (SecurePermissions {
            owner_only: true,
            owner_read: true,
            owner_write: true,
            owner_execute: false,
        }),
{
    assert(0o600u32 & 0o077u32 == 0) by (bit_vector);
    assert(0o600u32 & 0o400u32 != 0) by (bit_vector);
    assert(0o600u32 & 0o200u32 != 0) by (bit_vector);
    assert(0o600u32 & 0o100u32 == 0) by (bit_vector);
}

/// Law: a private directory's mode (`0700`) is owner-only and lets the
/// owner read, write and traverse it.
pub proof fn lemma_dir_mode_is_private()
    ensures
        mode_permissions(DIR_MODE) == (SecurePermissions {
            owner_only: true,
            owner_read: true,
            owner_write: true,
            owner_execute: true,
        }),
{
    assert(0o700u32 & 0o077u32 == 0) by (bit_vector);
    assert(0o700u32 & 0o400u32 != 0) by (bit_vector);
    assert(0o700u32 & 0o200u32 != 0) by (bit_vector);
    assert(0o700u32 & 0o100u32 != 0) by (bit_vector);
}

/// Law: on Unix, whether a resource is owner-only depends on its group and
/// other bits alone: setting or clearing owner bits (or the file type bits
/// above them) never changes it.
pub proof fn lemma_owner_bits_irrelevant(mode: u32, owner_bits: u32)
    requires
        owner_bits & 0o077u32 == 0,
    ensures
        mode_permissions(mode | owner_bits).owner_only == mode_permissions(mode).owner_only,
        mode_permissions(mode & !owner_bits).owner_only == mode_permissions(mode).owner_only,
{
    assert(owner_bits & 0o077u32 == 0 ==> ((mode | owner_bits) & 0o077u32 == 0 <==> mode
        & 0o077u32 == 0)) by (bit_vector);
    assert(owner_bits & 0o077u32 == 0 ==> ((mode & !owner_bits) & 0o077u32 == 0 <==> mode
        & 0o077u32 == 0)) by (bit_vector);
}

/// Law: an entry that allows nobody anything (a deny entry, or any type
/// other than the two allow types) leaves the reported permissions as they
/// were, wherever it is appended.
pub proof fn lemma_non_allow_entry_ignored(aces: Seq<AceEntry>, extra: AceEntry)
    requires
        extra.ace_type != ACCESS_ALLOWED_ACE_TYPE,
        extra.ace_type != ACCESS_ALLOWED_OBJECT_ACE_TYPE,
    ensures
        dacl_permissions(aces.push(extra)) == dacl_permissions(aces),
{
    let s = aces.push(extra);
    assert(s.drop_last() =~= aces);
    if any_other(s) {
        let j = choose|j: int| 0 <= j < s.len() && grants_other(#[trigger] s[j]);
        assert(j < aces.len());
        assert(aces[j] == s[j]);
    }
    if any_other(aces) {
        let j = choose|j: int| 0 <= j < aces.len() && grants_other(#[trigger] aces[j]);
        assert(s[j] == aces[j]);
    }
}

/// Law: a DACL in which some entry allows access to another principal is
/// never owner-only.
pub proof fn lemma_other_allow_not_private(aces: Seq<AceEntry>, i: int)
    requires
        0 <= i < aces.len(),
        aces[i].ace_type == ACCESS_ALLOWED_ACE_TYPE,
        !aces[i].for_user,
    ensures
        !dacl_permissions(aces).owner_only,
{
    assert(grants_other(aces[i]));
}

/// Law: a DACL whose only entry allows the current user full access
/// (`FILE_ALL_ACCESS`), as the library writes it, is owner-only and lets
/// the owner read, write and execute.
pub proof fn lemma_owner_only_dacl_is_private()
    ensures
        dacl_permissions(
            seq![AceEntry { ace_type: ACCESS_ALLOWED_ACE_TYPE, mask: 0x1F01FFu32, for_user: true }],
        ) == (SecurePermissions {
            owner_only: true,
            owner_read: true,
            owner_write: true,
            owner_execute: true,
        }),
{
    let s = seq![AceEntry { ace_type: ACCESS_ALLOWED_ACE_TYPE, mask: 0x1F01FFu32, for_user: true }];
    assert(s.drop_last() =~= Seq::<AceEntry>::empty());
    reveal_with_fuel(user_mask, 2);
    assert(user_mask(s) == (0u32 | 0x1F01FFu32));
    assert((0u32 | 0x1F01FFu32) & 0x8000_0001u32 != 0) by (bit_vector);
    assert((0u32 | 0x1F01FFu32) & 0x4000_0006u32 != 0) by (bit_vector);
    assert((0u32 | 0x1F01FFu32) & 0x2000_0020u32 != 0) by (bit_vector);
}

} // verus!

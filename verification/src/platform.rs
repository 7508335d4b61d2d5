use vstd::prelude::*;

use crate::error::{Error, IoError, IoErrorKind};

verus! {

/// `std::path::PathBuf`, carried opaquely: the library passes paths on to
/// the host unchanged and learns facts about them through the functions
/// below.
#[verifier::external_type_specification]
#[verifier::external_body]
pub struct ExPathBuf(std::path::PathBuf);

/// Clones a path (`PathBuf::clone`); the clone is the same path.
#[verifier::external_body]
pub(crate) fn clone_path(p: &std::path::PathBuf) -> (r: std::path::PathBuf)
    ensures
        r == *p,
{
    p.clone()
}

/// The path that `Path::join` makes of `base` and the string `tail`.
pub uninterp spec fn path_joined(base: std::path::PathBuf, tail: Seq<char>) -> std::path::PathBuf;

/// The path that `Path::join` makes of `base` and the path `tail`.
pub uninterp spec fn path_joined_path(
    base: std::path::PathBuf,
    tail: std::path::PathBuf,
) -> std::path::PathBuf;

/// Whether `p` is the empty path.
pub uninterp spec fn path_empty(p: std::path::PathBuf) -> bool;

/// The kinds of the first two components of `p`, as `Path::components`
/// yields them, `None` where there are fewer.
pub uninterp spec fn path_components(p: std::path::PathBuf) -> (
    Option<ComponentKind>,
    Option<ComponentKind>,
);

/// Appends `tail` to `base` (`Path::join`).
#[verifier::external_body]
pub(crate) fn join_path(base: &std::path::PathBuf, tail: &str) -> (r: std::path::PathBuf)
    ensures
        r == path_joined(*base, tail@),
{
    base.join(tail)
}

/// Appends the path `tail` to `base` (`Path::join`).
#[verifier::external_body]
pub(crate) fn join_path_buf(base: &std::path::PathBuf, tail: &std::path::PathBuf) -> (r:
    std::path::PathBuf)
    ensures
        r == path_joined_path(*base, *tail),
{
    base.join(tail)
}

/// Whether a path is the empty path (`OsStr::is_empty` of the path's
/// string).
#[verifier::external_body]
pub(crate) fn path_is_empty(p: &std::path::PathBuf) -> (r: bool)
    ensures
        r == path_empty(*p),
{
    p.as_os_str().is_empty()
}

/// The path that `Path::parent` gives for `p`: `p` without its last
/// component, or `None` when `p` ends in a root or prefix, or is empty.
pub uninterp spec fn path_parent_of(p: std::path::PathBuf) -> Option<std::path::PathBuf>;

/// The directory that holds a path (`Path::parent`, made an owned path).
#[verifier::external_body]
pub(crate) fn path_parent(p: &std::path::PathBuf) -> (r: Option<std::path::PathBuf>)
    ensures
        r == path_parent_of(*p),
{
    match p.parent() {
        Some(parent) => Some(parent.to_path_buf()),
        None => None,
    }
}

/// Appends one character to a string (`String::push`).
#[verifier::external_body]
pub(crate) fn push_char(s: &mut String, c: char)
    ensures
        final(s)@ == old(s)@.push(c),
{
    s.push(c)
}

/// The kinds of component that a path is made of (`std::path::Component`).
#[derive(Debug, Clone, Copy, PartialEq, Eq, Structural)]
pub enum ComponentKind {
    Prefix,
    RootDir,
    CurDir,
    ParentDir,
    Normal,
}

/// The kinds of the first two components of a path (`Path::components`),
/// `None` where the path has fewer.
#[verifier::external_body]
pub(crate) fn leading_components(p: &std::path::PathBuf) -> (r: (
    Option<ComponentKind>,
    Option<ComponentKind>,
))
    ensures
        r == path_components(*p),
{
    let mut components = p.components();
    let mut next = || match components.next() {
        Some(std::path::Component::Prefix(_)) => Some(ComponentKind::Prefix),
        Some(std::path::Component::RootDir) => Some(ComponentKind::RootDir),
        Some(std::path::Component::CurDir) => Some(ComponentKind::CurDir),
        Some(std::path::Component::ParentDir) => Some(ComponentKind::ParentDir),
        Some(std::path::Component::Normal(_)) => Some(ComponentKind::Normal),
        None => None,
    };
    let first = next();
    (first, next())
}

/// `windows_sys::Win32::Foundation::GENERIC_READ`.
#[verifier::external_body]
pub(crate) fn generic_read() -> (r: u32)
    ensures
        r == 0x8000_0000u32,
{
    windows_sys::Win32::Foundation::GENERIC_READ
}

/// `windows_sys::Win32::Foundation::GENERIC_WRITE`.
#[verifier::external_body]
pub(crate) fn generic_write() -> (r: u32)
    ensures
        r == 0x4000_0000u32,
{
    windows_sys::Win32::Foundation::GENERIC_WRITE
}

/// `windows_sys::Win32::Foundation::GENERIC_EXECUTE`.
#[verifier::external_body]
pub(crate) fn generic_execute() -> (r: u32)
    ensures
        r == 0x2000_0000u32,
{
    windows_sys::Win32::Foundation::GENERIC_EXECUTE
}

/// `windows_sys::Win32::Storage::FileSystem::FILE_READ_DATA`.
#[verifier::external_body]
pub(crate) fn file_read_data() -> (r: u32)
    ensures
        r == 1u32,
{
    windows_sys::Win32::Storage::FileSystem::FILE_READ_DATA
}

/// `windows_sys::Win32::Storage::FileSystem::FILE_WRITE_DATA`.
#[verifier::external_body]
pub(crate) fn file_write_data() -> (r: u32)
    ensures
        r == 2u32,
{
    windows_sys::Win32::Storage::FileSystem::FILE_WRITE_DATA
}

/// `windows_sys::Win32::Storage::FileSystem::FILE_APPEND_DATA`.
#[verifier::external_body]
pub(crate) fn file_append_data() -> (r: u32)
    ensures
        r == 4u32,
{
    windows_sys::Win32::Storage::FileSystem::FILE_APPEND_DATA
}

/// `windows_sys::Win32::Storage::FileSystem::FILE_EXECUTE`.
#[verifier::external_body]
pub(crate) fn file_execute() -> (r: u32)
    ensures
        r == 0x20u32,
{
    windows_sys::Win32::Storage::FileSystem::FILE_EXECUTE
}

/// `windows_sys::Win32::Storage::FileSystem::CREATE_NEW`.
#[verifier::external_body]
fn create_new_disposition() -> (r: u32)
    ensures
        r == 1u32,
{
    windows_sys::Win32::Storage::FileSystem::CREATE_NEW
}

/// `windows_sys::Win32::Storage::FileSystem::CREATE_ALWAYS`.
#[verifier::external_body]
fn create_always_disposition() -> (r: u32)
    ensures
        r == 2u32,
{
    windows_sys::Win32::Storage::FileSystem::CREATE_ALWAYS
}

/// `windows_sys::Win32::Storage::FileSystem::OPEN_EXISTING`.
#[verifier::external_body]
fn open_existing_disposition() -> (r: u32)
    ensures
        r == 3u32,
{
    windows_sys::Win32::Storage::FileSystem::OPEN_EXISTING
}

/// `windows_sys::Win32::Storage::FileSystem::OPEN_ALWAYS`.
#[verifier::external_body]
fn open_always_disposition() -> (r: u32)
    ensures
        r == 4u32,
{
    windows_sys::Win32::Storage::FileSystem::OPEN_ALWAYS
}

/// `windows_sys::Win32::Storage::FileSystem::TRUNCATE_EXISTING`.
#[verifier::external_body]
fn truncate_existing_disposition() -> (r: u32)
    ensures
        r == 5u32,
{
    windows_sys::Win32::Storage::FileSystem::TRUNCATE_EXISTING
}

/// `windows_sys::Win32::Storage::FileSystem::FILE_ATTRIBUTE_DIRECTORY`.
#[verifier::external_body]
fn attribute_directory() -> (r: u32)
    ensures
        r == 0x10u32,
{
    windows_sys::Win32::Storage::FileSystem::FILE_ATTRIBUTE_DIRECTORY
}

/// `windows_sys::Win32::Storage::FileSystem::FILE_ATTRIBUTE_NORMAL`.
#[verifier::external_body]
fn attribute_normal() -> (r: u32)
    ensures
        r == 0x80u32,
{
    windows_sys::Win32::Storage::FileSystem::FILE_ATTRIBUTE_NORMAL
}

/// `windows_sys::Win32::Storage::FileSystem::FILE_ATTRIBUTE_REPARSE_POINT`.
#[verifier::external_body]
fn attribute_reparse_point() -> (r: u32)
    ensures
        r == 0x400u32,
{
    windows_sys::Win32::Storage::FileSystem::FILE_ATTRIBUTE_REPARSE_POINT
}

/// `windows_sys::Win32::Storage::FileSystem::FILE_FLAG_OPEN_REPARSE_POINT`.
#[verifier::external_body]
fn flag_open_reparse_point() -> (r: u32)
    ensures
        r == 0x20_0000u32,
{
    windows_sys::Win32::Storage::FileSystem::FILE_FLAG_OPEN_REPARSE_POINT
}

/// The values of the Unix open flags that the library asks for, as the
/// platform defines them: `O_NOFOLLOW`, `O_CLOEXEC` and `O_DIRECTORY`.
#[derive(Debug, Clone, Copy, PartialEq, Eq, Structural)]
pub struct UnixOpenFlags {
    pub no_follow: i32,
    pub close_on_exec: i32,
    pub directory: i32,
}

/// The extra Unix flags for opening a file: close-on-exec, and no-follow
/// unless links are followed.
pub open spec fn unix_file_flags_of(flags: UnixOpenFlags, follow_symlinks: bool) -> i32 {
    if follow_symlinks {
        flags.close_on_exec
    } else {
        flags.no_follow | flags.close_on_exec
    }
}

/// The extra Unix flags for opening a file: close-on-exec, and
/// `O_NOFOLLOW` unless `follow_symlinks`.
pub fn unix_file_flags(flags: UnixOpenFlags, follow_symlinks: bool) -> (r: i32)
    ensures
        r == unix_file_flags_of(flags, follow_symlinks),
{
    if follow_symlinks {
        flags.close_on_exec
    } else {
        flags.no_follow | flags.close_on_exec
    }
}

/// The extra Unix flags for opening a directory: no-follow, close-on-exec
/// and directory-only.
pub fn unix_dir_flags(flags: UnixOpenFlags) -> (r: i32)
    ensures
        r == flags.no_follow | flags.close_on_exec | flags.directory,
{
    flags.no_follow | flags.close_on_exec | flags.directory
}

/// The text of the error for a directory where a file is wanted.
pub open spec fn dir_not_file_message() -> Seq<char> {
    "path is a directory, not a file"@
}

/// The text of the error for something else where a directory is wanted.
pub open spec fn not_dir_message() -> Seq<char> {
    "path is not a directory"@
}

/// Whether `r` is an `Io` error of kind `InvalidInput`, without OS code,
/// whose text is `message`.
pub open spec fn invalid_input_with(r: Result<(), Error>, message: Seq<char>) -> bool {
    &&& r matches Err(Error::Io(io))
    &&& io.kind == IoErrorKind::InvalidInput
    &&& io.code is None
    &&& io.origin is None
    &&& io.message@ == message
}

/// Checks what a Unix path turned out to be against what was wanted: a
/// symbolic link is `SymlinkDetected`; a directory where a file is wanted,
/// or anything else where a directory is wanted, is an `Io` error of kind
/// `InvalidInput`.
pub fn check_unix_kind(is_symlink: bool, is_dir: bool, want_dir: bool) -> (r: Result<(), Error>)
    ensures
        is_symlink ==> r == Err::<(), Error>(Error::SymlinkDetected),
        !is_symlink && is_dir == want_dir ==> r is Ok,
        !is_symlink && is_dir && !want_dir ==> invalid_input_with(r, dir_not_file_message()),
        !is_symlink && !is_dir && want_dir ==> invalid_input_with(r, not_dir_message()),
{
    if is_symlink {
        Err(Error::SymlinkDetected)
    } else if is_dir == want_dir {
        Ok(())
    } else if is_dir {
        Err(Error::Io(IoError::new(IoErrorKind::InvalidInput, "path is a directory, not a file")))
    } else {
        Err(Error::Io(IoError::new(IoErrorKind::InvalidInput, "path is not a directory")))
    }
}

/// Platform-independent description of how to open or create a file.
#[derive(Debug, Clone, Copy, PartialEq, Eq, Structural)]
pub struct OpenParams {
    pub read: bool,
    pub write: bool,
    pub append: bool,
    pub truncate: bool,
    pub create: bool,
    pub create_new: bool,
    pub follow_symlinks: bool,
}

/// The Win32 access mask that `p` asks for.
pub open spec fn access_mask_of(p: OpenParams) -> u32 {
    (if p.read { 0x8000_0000u32 } else { 0u32 }) | (if p.write { 0x4000_0000u32 } else { 0u32 }) | (
    if p.append { 4u32 } else { 0u32 })
}

/// The Win32 creation disposition that `p` asks for.
pub open spec fn disposition_of(p: OpenParams) -> u32 {
    if p.create_new {
        1  // CREATE_NEW

    } else if p.create && p.truncate {
        2  // CREATE_ALWAYS

    } else if p.create {
        4  // OPEN_ALWAYS

    } else if p.truncate {
        5  // TRUNCATE_EXISTING

    } else {
        3  // OPEN_EXISTING

    }
}

/// The Win32 flags and attributes that `p` asks for: a normal file, opened
/// as the reparse point itself unless links are followed.
pub open spec fn flags_of(p: OpenParams) -> u32 {
    if p.follow_symlinks {
        0x80u32
    } else {
        0x80u32 | 0x20_0000u32
    }
}

impl OpenParams {
    /// Exclusive creation of a new file for reading and writing.
    pub fn for_create() -> (r: OpenParams)
        ensures
            r == (OpenParams {
                read: true,
                write: true,
                append: false,
                truncate: false,
                create: false,
                create_new: true,
                follow_symlinks: false,
            }),
    {
        OpenParams {
            read: true,
            write: true,
            append: false,
            truncate: false,
            create: false,
            create_new: true,
            follow_symlinks: false,
        }
    }

    /// Opening an existing file for reading, and for writing when `write`.
    pub fn for_open(write: bool) -> (r: OpenParams)
        ensures
            r == (OpenParams {
                read: true,
                write,
                append: false,
                truncate: false,
                create: false,
                create_new: false,
                follow_symlinks: false,
            }),
    {
        OpenParams {
            read: true,
            write,
            append: false,
            truncate: false,
            create: false,
            create_new: false,
            follow_symlinks: false,
        }
    }

    /// Whether opening with these parameters may create the file.
    pub fn creates(&self) -> (r: bool)
        ensures
            r == (self.create || self.create_new),
    {
        self.create || self.create_new
    }

    /// The Win32 access mask: `GENERIC_READ`, `GENERIC_WRITE` and
    /// `FILE_APPEND_DATA` for read, write and append.
    pub fn access_mask(&self) -> (r: u32)
        ensures
            r == access_mask_of(*self),
    {
        let read = if self.read { generic_read() } else { 0 };
        let write = if self.write { generic_write() } else { 0 };
        let append = if self.append { file_append_data() } else { 0 };
        read | write | append
    }

    /// The Win32 creation disposition: `CREATE_NEW` for exclusive creation,
    /// `CREATE_ALWAYS` for create-and-truncate, `OPEN_ALWAYS` for create,
    /// `TRUNCATE_EXISTING` for truncate, else `OPEN_EXISTING`.
    pub fn disposition(&self) -> (r: u32)
        ensures
            r == disposition_of(*self),
    {
        if self.create_new {
            create_new_disposition()
        } else if self.create && self.truncate {
            create_always_disposition()
        } else if self.create {
            open_always_disposition()
        } else if self.truncate {
            truncate_existing_disposition()
        } else {
            open_existing_disposition()
        }
    }

    /// The Win32 flags and attributes: `FILE_ATTRIBUTE_NORMAL`, plus
    /// `FILE_FLAG_OPEN_REPARSE_POINT` unless links are followed.
    pub fn flags(&self) -> (r: u32)
        ensures
            r == flags_of(*self),
    {
        let normal = attribute_normal();
        if self.follow_symlinks {
            normal
        } else {
            normal | flag_open_reparse_point()
        }
    }
}

/// What a Windows open of a file decides from the opened handle's
/// attributes: a reparse point is a link (unless links are followed), and a
/// directory is not a file.
pub fn check_file_attributes(attrs: u32, follow_symlinks: bool) -> (r: Result<(), Error>)
    ensures
        !follow_symlinks && attrs & 0x400u32 != 0 ==> r == Err::<(), Error>(Error::SymlinkDetected),
        (follow_symlinks || attrs & 0x400u32 == 0) && attrs & 0x10u32 != 0 ==> r == Err::<
            (),
            Error,
        >(Error::InvalidInput),
        (follow_symlinks || attrs & 0x400u32 == 0) && attrs & 0x10u32 == 0 ==> r is Ok,
{
    if !follow_symlinks && attrs & attribute_reparse_point() != 0 {
        return Err(Error::SymlinkDetected);
    }
    if attrs & attribute_directory() != 0 {
        return Err(Error::InvalidInput);
    }
    Ok(())
}

/// What a Windows open of a directory decides from the path's attributes:
/// a reparse point is a link, and anything but a directory is refused.
pub fn check_dir_attributes(attrs: u32) -> (r: Result<(), Error>)
    ensures
        attrs & 0x400u32 != 0 ==> r == Err::<(), Error>(Error::SymlinkDetected),
        attrs & 0x400u32 == 0 && attrs & 0x10u32 == 0 ==> r == Err::<(), Error>(
            Error::InvalidInput,
        ),
        attrs & 0x400u32 == 0 && attrs & 0x10u32 != 0 ==> r is Ok,
{
    if attrs & attribute_reparse_point() != 0 {
        return Err(Error::SymlinkDetected);
    }
    if attrs & attribute_directory() == 0 {
        return Err(Error::InvalidInput);
    }
    Ok(())
}

/// The number of 8-byte words that hold `bytes` bytes, for the aligned
/// buffers that Windows security structures are built in.
pub fn aligned_words(bytes: usize) -> (r: usize)
    ensures
        r * 8 >= bytes,
        r * 8 < bytes + 8,
{
    bytes / 8 + if bytes % 8 == 0 { 0 } else { 1 }
}

/// Law: exclusive creation is always `CREATE_NEW` (1), whatever `create`
/// and `truncate` say; a disposition that may create a file (`CREATE_NEW`,
/// `CREATE_ALWAYS`, `OPEN_ALWAYS`) is chosen exactly when some creation is
/// asked for, and one that truncates an existing file (`CREATE_ALWAYS`,
/// `TRUNCATE_EXISTING`) exactly when truncation is asked for without
/// exclusive creation. So the parameters for creating a new file ask for
/// `CREATE_NEW`.
pub proof fn lemma_disposition_laws(p: OpenParams)
    ensures
        p.create_new ==> disposition_of(p) == 1,
        (disposition_of(p) == 1 || disposition_of(p) == 2 || disposition_of(p) == 4) <==> (p.create
            || p.create_new),
        (disposition_of(p) == 2 || disposition_of(p) == 5) <==> (p.truncate && !p.create_new),
        disposition_of(p) == 1 || disposition_of(p) == 2 || disposition_of(p) == 3
            || disposition_of(p) == 4 || disposition_of(p) == 5,
        disposition_of(
            OpenParams {
                read: true,
                write: true,
                append: false,
                truncate: false,
                create: false,
                create_new: true,
                follow_symlinks: false,
            },
        ) == 1,
{
}

/// Law: the access mask has the `GENERIC_READ` bit exactly when reading is
/// asked for, `GENERIC_WRITE` exactly when writing is, `FILE_APPEND_DATA`
/// exactly when appending is, and no other bit.
pub proof fn lemma_access_mask_bits(p: OpenParams)
    ensures
        (access_mask_of(p) & 0x8000_0000u32 != 0) == p.read,
        (access_mask_of(p) & 0x4000_0000u32 != 0) == p.write,
        (access_mask_of(p) & 4u32 != 0) == p.append,
        access_mask_of(p) & !0xC000_0004u32 == 0,
{
    let r: u32 = if p.read { 0x8000_0000u32 } else { 0u32 };
    let w: u32 = if p.write { 0x4000_0000u32 } else { 0u32 };
    let a: u32 = if p.append { 4u32 } else { 0u32 };
    assert((r == 0x8000_0000u32 || r == 0) && (w == 0x4000_0000u32 || w == 0) && (a == 4 || a
        == 0) ==> ((r | w | a) & 0x8000_0000u32 != 0) == (r != 0) && ((r | w | a) & 0x4000_0000u32
        != 0) == (w != 0) && ((r | w | a) & 4u32 != 0) == (a != 0) && (r | w | a) & !0xC000_0004u32
        == 0) by (bit_vector);
}

/// Law: a file is always opened as a normal file, and as the reparse point
/// itself (not its target) exactly when links are not followed.
pub proof fn lemma_open_flags_bits(p: OpenParams)
    ensures
        flags_of(p) & 0x80u32 != 0,
        (flags_of(p) & 0x20_0000u32 != 0) == !p.follow_symlinks,
{
    assert(0x80u32 & 0x80u32 != 0 && 0x80u32 & 0x20_0000u32 == 0) by (bit_vector);
    assert((0x80u32 | 0x20_0000u32) & 0x80u32 != 0 && (0x80u32 | 0x20_0000u32) & 0x20_0000u32
        != 0) by (bit_vector);
}

/// Law: whatever the platform's flag values, a file is always opened
/// close-on-exec, and refusing links only adds `O_NOFOLLOW` to what
/// following them asks for; a directory is opened with everything a file
/// that refuses links is opened with, plus `O_DIRECTORY`.
pub proof fn lemma_unix_flags(flags: UnixOpenFlags, follow_symlinks: bool)
    ensures
        unix_file_flags_of(flags, follow_symlinks) & flags.close_on_exec == flags.close_on_exec,
        unix_file_flags_of(flags, false) == unix_file_flags_of(flags, true) | flags.no_follow,
        unix_file_flags_of(flags, false) & flags.no_follow == flags.no_follow,
{
    let n = flags.no_follow;
    let c = flags.close_on_exec;
    assert(c & c == c && (n | c) & c == c && (n | c) == (c | n) && (n | c) & n == n)
        by (bit_vector);
}

} // verus!

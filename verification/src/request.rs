use vstd::prelude::*;

use std::path::PathBuf;

use crate::error::Error;
use crate::permissions::SecurePermissions;
use crate::platform::OpenParams;

verus! {

/// A filesystem operation that the library asks its host to perform.
///
/// The library decides what to do and in which order; the host performs
/// each request with the platform's primitives and answers with a [`Reply`].
/// File requests without a path act on the file that the host opened last.
#[derive(Debug)]
pub enum Request {
    /// Create a new file exclusively, owner-only, never following a link.
    CreateFile(PathBuf),
    /// Open an existing file without following a link, for reading and, when
    /// the flag is set, for writing.
    OpenFile(PathBuf, bool),
    /// Open or create a file as the parameters say.
    OpenFileWith(PathBuf, OpenParams),
    /// Read the path's own metadata, without following a link.
    Probe(PathBuf),
    /// Tighten the open file's permissions to owner-only.
    TightenFile,
    /// Ask whether only the owner can access the open file.
    CheckFilePrivate,
    /// Read the open file's permissions.
    FilePermissions,
    /// Truncate the open file to length zero.
    TruncateFile,
    /// Write all of the bytes to the open file.
    WriteFile(Vec<u8>),
    /// Sync the open file's data and metadata to disk.
    SyncFile,
    /// Read the open file to its end.
    ReadFile,
    /// Create a directory and all of its missing parents.
    CreateDirAll(PathBuf),
    /// Create a new directory exclusively, owner-only.
    CreateDir(PathBuf),
    /// Check that the path is a directory and not a link.
    OpenDir(PathBuf),
    /// Tighten a directory's permissions to owner-only.
    TightenDir(PathBuf),
    /// Ask whether only the owner can access a directory.
    CheckDirPrivate(PathBuf),
    /// Read a directory's permissions.
    DirPermissions(PathBuf),
    /// Draw an unpredictable number.
    DrawRandom,
    /// Ask whether the path itself is a symbolic link, without following
    /// it; a path that does not exist is none.
    IsLink(PathBuf),
    /// Close the open file, then rename the first path to the second,
    /// replacing the file that the second names.
    Rename(PathBuf, PathBuf),
    /// Close the open file, then remove the file at the path.
    RemoveFile(PathBuf),
}

/// The host's answer to a [`Request`].
#[derive(Debug)]
pub enum Reply {
    /// The outcome of an operation that yields nothing.
    Status(Result<(), Error>),
    /// The outcome of a yes-or-no question.
    Answer(Result<bool, Error>),
    /// The bytes that were read.
    Data(Result<Vec<u8>, Error>),
    /// The permissions that were read.
    Permissions(Result<SecurePermissions, Error>),
    /// An unpredictable number.
    Random(u64),
}

/// The shapes of [`Reply`].
#[derive(Debug, Clone, Copy, PartialEq, Eq, Structural)]
pub enum ReplyKind {
    Status,
    Answer,
    Data,
    Permissions,
    Random,
}

/// What a plan asks for next: a request to perform, or its final result.
#[derive(Debug)]
pub enum Step<T> {
    Perform(Request),
    Finish(Result<T, Error>),
}

/// The shape of a reply.
pub open spec fn reply_kind(r: Reply) -> ReplyKind {
    match r {
        Reply::Status(_) => ReplyKind::Status,
        Reply::Answer(_) => ReplyKind::Answer,
        Reply::Data(_) => ReplyKind::Data,
        Reply::Permissions(_) => ReplyKind::Permissions,
        Reply::Random(_) => ReplyKind::Random,
    }
}

/// The shape of the reply that answers a request.
pub open spec fn expected_reply(q: Request) -> ReplyKind {
    match q {
        Request::CheckFilePrivate => ReplyKind::Answer,
        Request::CheckDirPrivate(_) => ReplyKind::Answer,
        Request::FilePermissions => ReplyKind::Permissions,
        Request::DirPermissions(_) => ReplyKind::Permissions,
        Request::ReadFile => ReplyKind::Data,
        Request::DrawRandom => ReplyKind::Random,
        Request::IsLink(_) => ReplyKind::Answer,
        _ => ReplyKind::Status,
    }
}

/// What the answer to an "is it private?" question means for an operation
/// that must only hand out private resources.
pub open spec fn verdict(answer: Result<bool, Error>) -> Result<(), Error> {
    match answer {
        Ok(true) => Ok(()),
        Ok(false) => Err(Error::InsecurePermissions),
        Err(e) => Err(e),
    }
}

impl Request {
    /// The shape of the reply that answers this request.
    pub fn reply_kind(&self) -> (r: ReplyKind)
        ensures
            r == expected_reply(*self),
    {
        match self {
            Request::CheckFilePrivate => ReplyKind::Answer,
            Request::CheckDirPrivate(_) => ReplyKind::Answer,
            Request::FilePermissions => ReplyKind::Permissions,
            Request::DirPermissions(_) => ReplyKind::Permissions,
            Request::ReadFile => ReplyKind::Data,
            Request::DrawRandom => ReplyKind::Random,
            Request::IsLink(_) => ReplyKind::Answer,
            _ => ReplyKind::Status,
        }
    }
}

impl Reply {
    /// The shape of this reply.
    pub fn kind(&self) -> (r: ReplyKind)
        ensures
            r == reply_kind(*self),
    {
        match self {
            Reply::Status(_) => ReplyKind::Status,
            Reply::Answer(_) => ReplyKind::Answer,
            Reply::Data(_) => ReplyKind::Data,
            Reply::Permissions(_) => ReplyKind::Permissions,
            Reply::Random(_) => ReplyKind::Random,
        }
    }
}

/// Turns the answer to "is it private?" into the outcome of an operation
/// that must only hand out private resources: `false` is
/// `InsecurePermissions`, and an error is passed on.
pub fn require_private(answer: Result<bool, Error>) -> (r: Result<(), Error>)
    ensures
        r == verdict(answer),
{
    match answer {
        Ok(true) => Ok(()),
        Ok(false) => Err(Error::InsecurePermissions),
        Err(e) => Err(e),
    }
}

} // verus!

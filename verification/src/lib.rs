//! Cross-platform owner-only filesystem access.
//!
//! The library decides how files and directories that only the current
//! user may access are created, opened, checked and tightened. It does no
//! input or output itself: every operation is a plan that names, one
//! [`Request`] at a time, the filesystem work to perform, and takes the
//! host's [`Reply`] to decide the next step, until it finishes with its
//! result.

pub mod appdir;
pub mod atomic;
pub mod dir;
pub mod error;
pub mod file;
pub mod options;
pub mod permissions;
pub mod platform;
pub mod request;
pub mod temp;

pub use crate::appdir::{app_dir, app_dir_in, platform_data_dir_with, DataDirEnv, Platform};
pub use crate::atomic::AtomicWritePlan;
pub use crate::dir::{DirPlan, SecureDir};
pub use crate::error::{Error, IoError, IoErrorKind, Result};
pub use crate::file::{FilePlan, ReadPlan, WritePlan};
pub use crate::options::{OpenPlan, SecureFileOptions};
pub use crate::permissions::SecurePermissions;
pub use crate::platform::OpenParams;
pub use crate::request::{Reply, Request, Step};
pub use crate::temp::{SecureTempDir, TempDirPlan, TempKind, TempPlan};

use std::path::PathBuf;
use vstd::prelude::*;

use crate::atomic::{atomic_data, atomic_path, atomic_stage, AtomicStage};
use crate::dir::{dir_failure, dir_goal, dir_path, dir_stage, DirGoal, DirStage};
use crate::file::{read_path, read_stage, write_data, write_path, write_stage, ReadStage, WriteStage};

verus! {

/// Writes `data` to `path` as a file that only the current user can access.
///
/// If the file does not exist it is created atomically with owner-only
/// permissions. If it already exists it is opened for writing, tightened to
/// owner-only (and verified), truncated, and then written. Symbolic links
/// are always rejected.
pub fn write_private(path: PathBuf, data: Vec<u8>) -> (r: WritePlan)
    ensures
        write_path(r) == path,
        write_data(r) == Some(data),
        write_stage(r) == WriteStage::Ready,
{
    WritePlan::new(path, data)
}

/// Writes `data` to `path` atomically, as a file that only the current user
/// can access.
///
/// The bytes are written to an owner-only temporary file with an
/// unpredictable name in the same directory, synced, and renamed over
/// `path`, so that readers see either the old contents or the new ones,
/// never a mix. A symbolic link at `path` is rejected. When the write
/// fails after the temporary file was created, it is removed again.
pub fn write_private_atomic(path: PathBuf, data: Vec<u8>) -> (r: AtomicWritePlan)
    ensures
        atomic_path(r) == path,
        atomic_data(r) == Some(data),
        atomic_stage(r) == AtomicStage::Ready,
{
    AtomicWritePlan::new(path, data)
}

/// Reads the entire contents of a private file.
///
/// The plan fails with [`Error::InsecurePermissions`] if the file is
/// accessible by anyone other than the owner.
pub fn read_private(path: PathBuf) -> (r: ReadPlan)
    ensures
        read_path(r) == path,
        read_stage(r) == ReadStage::Ready,
{
    ReadPlan::new(path)
}

/// Creates a directory that only the current user can access; fails if the
/// directory already exists.
pub fn create_dir(path: PathBuf) -> (r: DirPlan)
    ensures
        dir_goal(r) == DirGoal::Create,
        dir_path(r) == path,
        dir_stage(r) == DirStage::Ready,
        dir_failure(r) is None,
{
    SecureDir::create(path)
}

} // verus!

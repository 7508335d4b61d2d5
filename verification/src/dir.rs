use vstd::prelude::*;

use std::path::PathBuf;

use crate::error::Error;
use crate::platform::clone_path;
use crate::request::{reply_kind, verdict, Reply, ReplyKind, Request, Step};

verus! {

/// A directory that is only accessible by the current user.
///
/// Directories are created with owner-only permissions from the moment they
/// exist on disk (`0700` on Unix, an owner-only DACL on Windows). A value of
/// this type only comes out of a [`DirPlan`] that succeeded.
#[derive(Debug)]
pub struct SecureDir {
    path: PathBuf,
}

impl View for SecureDir {
    type V = PathBuf;

    /// The path of the directory.
    closed spec fn view(&self) -> PathBuf {
        self.path
    }
}

/// What a directory plan is for.
#[derive(Debug, Clone, Copy, PartialEq, Eq, Structural)]
pub enum DirGoal {
    /// Create a new directory.
    Create,
    /// Open an existing directory and verify that it is private.
    Open,
    /// Open an existing directory without checking its permissions.
    OpenUnchecked,
    /// Tighten a directory to owner-only and verify the result.
    EnsurePrivate,
    /// Create the base directory, then the application directory in it; if
    /// the latter exists already, open it and tighten it instead.
    AppDir,
}

/// Where a directory plan stands.
#[derive(Debug, Clone, Copy, PartialEq, Eq, Structural)]
pub enum DirStage {
    Ready,
    MakingBase,
    Creating,
    Opening,
    Tightening,
    Checking,
    Done,
}

/// The steps that lead to a [`SecureDir`].
#[derive(Debug)]
pub struct DirPlan {
    goal: DirGoal,
    base: PathBuf,
    path: PathBuf,
    stage: DirStage,
    failure: Option<Error>,
}

/// The plan's goal.
pub closed spec fn dir_goal(p: DirPlan) -> DirGoal {
    p.goal
}

/// The directory that the plan is about.
pub closed spec fn dir_path(p: DirPlan) -> PathBuf {
    p.path
}

/// The base directory that an application-directory plan creates first.
pub closed spec fn dir_base(p: DirPlan) -> PathBuf {
    p.base
}

/// Where the plan stands.
pub closed spec fn dir_stage(p: DirPlan) -> DirStage {
    p.stage
}

/// The error that ends the plan before any request, if any.
pub closed spec fn dir_failure(p: DirPlan) -> Option<Error> {
    p.failure
}

/// The directory value for `path`.
pub closed spec fn secure_dir(path: PathBuf) -> SecureDir {
    SecureDir { path }
}

/// Law: the directory value for `path` has the path `path`.
pub proof fn lemma_secure_dir_path(path: PathBuf)
    ensures
        secure_dir(path)@ == path,
{
}

/// The first step of a plan and the stage it leads to.
pub open spec fn dir_first(p: DirPlan) -> (DirStage, Step<SecureDir>) {
    if dir_failure(p) is Some {
        (DirStage::Done, Step::Finish(Err(dir_failure(p)->0)))
    } else {
        match dir_goal(p) {
            DirGoal::AppDir => (DirStage::MakingBase, Step::Perform(Request::CreateDirAll(dir_base(p)))),
            DirGoal::Create => (DirStage::Creating, Step::Perform(Request::CreateDir(dir_path(p)))),
            DirGoal::EnsurePrivate => (
                DirStage::Tightening,
                Step::Perform(Request::TightenDir(dir_path(p))),
            ),
            _ => (DirStage::Opening, Step::Perform(Request::OpenDir(dir_path(p)))),
        }
    }
}

/// The reply that a plan in `stage` waits for.
pub open spec fn dir_awaits(stage: DirStage) -> Option<ReplyKind> {
    match stage {
        DirStage::Ready => None,
        DirStage::Done => None,
        DirStage::Checking => Some(ReplyKind::Answer),
        _ => Some(ReplyKind::Status),
    }
}

/// The step that follows a successful "open" of the directory.
pub open spec fn dir_after_open(p: DirPlan) -> (DirStage, Step<SecureDir>) {
    match dir_goal(p) {
        DirGoal::Open => (DirStage::Checking, Step::Perform(Request::CheckDirPrivate(dir_path(p)))),
        DirGoal::AppDir => (DirStage::Tightening, Step::Perform(Request::TightenDir(dir_path(p)))),
        _ => (DirStage::Done, Step::Finish(Ok(secure_dir(dir_path(p))))),
    }
}

/// The step that follows a reply, and the stage it leads to.
pub open spec fn dir_next(p: DirPlan, reply: Reply) -> (DirStage, Step<SecureDir>) {
    match reply {
        Reply::Status(Err(e)) => {
            if dir_stage(p) == DirStage::Creating && dir_goal(p) == DirGoal::AppDir && e
                is AlreadyExists {
                (DirStage::Opening, Step::Perform(Request::OpenDir(dir_path(p))))
            } else {
                (DirStage::Done, Step::Finish(Err(e)))
            }
        },
        Reply::Status(Ok(())) => match dir_stage(p) {
            DirStage::MakingBase => (
                DirStage::Creating,
                Step::Perform(Request::CreateDir(dir_path(p))),
            ),
            DirStage::Creating => (DirStage::Done, Step::Finish(Ok(secure_dir(dir_path(p))))),
            DirStage::Opening => dir_after_open(p),
            _ => (DirStage::Checking, Step::Perform(Request::CheckDirPrivate(dir_path(p)))),
        },
        Reply::Answer(a) => match verdict(a) {
            Ok(()) => (DirStage::Done, Step::Finish(Ok(secure_dir(dir_path(p))))),
            Err(e) => (DirStage::Done, Step::Finish(Err(e))),
        },
        _ => (DirStage::Done, Step::Finish(Err(Error::InvalidInput))),
    }
}

/// Whether the plan's stage is one that its goal passes through.
pub open spec fn dir_well_formed(p: DirPlan) -> bool {
    let s = dir_stage(p);
    match dir_goal(p) {
        DirGoal::Create => s == DirStage::Ready || s == DirStage::Creating || s == DirStage::Done,
        DirGoal::Open => s == DirStage::Ready || s == DirStage::Opening || s == DirStage::Checking
            || s == DirStage::Done,
        DirGoal::OpenUnchecked => s == DirStage::Ready || s == DirStage::Opening || s
            == DirStage::Done,
        DirGoal::EnsurePrivate => s == DirStage::Ready || s == DirStage::Tightening || s
            == DirStage::Checking || s == DirStage::Done,
        DirGoal::AppDir => true,
    }
}

/// Whether two plans have the same goal and concern the same directories.
pub open spec fn same_dir_plan(a: DirPlan, b: DirPlan) -> bool {
    &&& dir_goal(a) == dir_goal(b)
    &&& dir_path(a) == dir_path(b)
    &&& dir_base(a) == dir_base(b)
}

impl DirPlan {

    fn fresh(goal: DirGoal, base: PathBuf, path: PathBuf) -> (r: DirPlan)
        ensures
            dir_goal(r) == goal,
            dir_base(r) == base,
            dir_path(r) == path,
            dir_stage(r) == DirStage::Ready,
            dir_failure(r) is None,
    {
        DirPlan { goal, base, path, stage: DirStage::Ready, failure: None }
    }

    /// A plan that creates `base` (with its parents), then the directory
    /// `path`; if `path` exists already, it opens it and tightens it to
    /// owner-only instead.
    pub fn app_dir(base: PathBuf, path: PathBuf) -> (r: DirPlan)
        ensures
            dir_goal(r) == DirGoal::AppDir,
            dir_base(r) == base,
            dir_path(r) == path,
            dir_stage(r) == DirStage::Ready,
            dir_failure(r) is None,
    {
        DirPlan::fresh(DirGoal::AppDir, base, path)
    }

    /// A plan that fails with `err` without asking for anything.
    pub fn failed(err: Error, path: PathBuf) -> (r: DirPlan)
        ensures
            dir_goal(r) == DirGoal::AppDir,
            dir_path(r) == path,
            dir_stage(r) == DirStage::Ready,
            dir_failure(r) == Some(err),
    {
        let base = clone_path(&path);
        DirPlan { goal: DirGoal::AppDir, base, path, stage: DirStage::Ready, failure: Some(err) }
    }

    /// The first step of the plan.
    pub fn start(&mut self) -> (r: Step<SecureDir>)
        requires
            dir_stage(*old(self)) == DirStage::Ready,
            dir_well_formed(*old(self)),
        ensures
            same_dir_plan(*final(self), *old(self)),
            dir_well_formed(*final(self)),
            (dir_stage(*final(self)), r) == dir_first(*old(self)),
    {
        if self.failure.is_some() {
            let e = self.failure.take().unwrap();
            self.stage = DirStage::Done;
            return Step::Finish(Err(e));
        }
        match self.goal {
            DirGoal::AppDir => {
                self.stage = DirStage::MakingBase;
                Step::Perform(Request::CreateDirAll(clone_path(&self.base)))
            },
            DirGoal::Create => {
                self.stage = DirStage::Creating;
                Step::Perform(Request::CreateDir(clone_path(&self.path)))
            },
            DirGoal::EnsurePrivate => {
                self.stage = DirStage::Tightening;
                Step::Perform(Request::TightenDir(clone_path(&self.path)))
            },
            _ => {
                self.stage = DirStage::Opening;
                Step::Perform(Request::OpenDir(clone_path(&self.path)))
            },
        }
    }

    /// The step that follows the host's reply to the last request.
    pub fn resume(&mut self, reply: Reply) -> (r: Step<SecureDir>)
        requires
            dir_awaits(dir_stage(*old(self))) == Some(reply_kind(reply)),
            dir_well_formed(*old(self)),
        ensures
            same_dir_plan(*final(self), *old(self)),
            dir_well_formed(*final(self)),
            (dir_stage(*final(self)), r) == dir_next(*old(self), reply),
    {
        match reply {
            Reply::Status(Err(e)) => {
                if self.stage == DirStage::Creating && self.goal == DirGoal::AppDir && matches!(
                    e,
                    Error::AlreadyExists
                ) {
                    self.stage = DirStage::Opening;
                    Step::Perform(Request::OpenDir(clone_path(&self.path)))
                } else {
                    self.stage = DirStage::Done;
                    Step::Finish(Err(e))
                }
            },
            Reply::Status(Ok(())) => match self.stage {
                DirStage::MakingBase => {
                    self.stage = DirStage::Creating;
                    Step::Perform(Request::CreateDir(clone_path(&self.path)))
                },
                DirStage::Creating => {
                    self.stage = DirStage::Done;
                    Step::Finish(Ok(SecureDir { path: clone_path(&self.path) }))
                },
                DirStage::Opening => match self.goal {
                    DirGoal::Open => {
                        self.stage = DirStage::Checking;
                        Step::Perform(Request::CheckDirPrivate(clone_path(&self.path)))
                    },
                    DirGoal::AppDir => {
                        self.stage = DirStage::Tightening;
                        Step::Perform(Request::TightenDir(clone_path(&self.path)))
                    },
                    _ => {
                        self.stage = DirStage::Done;
                        Step::Finish(Ok(SecureDir { path: clone_path(&self.path) }))
                    },
                },
                _ => {
                    self.stage = DirStage::Checking;
                    Step::Perform(Request::CheckDirPrivate(clone_path(&self.path)))
                },
            },
            Reply::Answer(a) => {
                self.stage = DirStage::Done;
                match a {
                    Ok(true) => Step::Finish(Ok(SecureDir { path: clone_path(&self.path) })),
                    Ok(false) => Step::Finish(Err(Error::InsecurePermissions)),
                    Err(e) => Step::Finish(Err(e)),
                }
            },
            _ => {
                self.stage = DirStage::Done;
                Step::Finish(Err(Error::InvalidInput))
            },
        }
    }
}

impl SecureDir {
    /// Creates a new directory, failing if it already exists.
    ///
    /// The directory is created atomically with owner-only permissions.
    pub fn create(path: PathBuf) -> (r: DirPlan)
        ensures
            dir_goal(r) == DirGoal::Create,
            dir_path(r) == path,
            dir_stage(r) == DirStage::Ready,
            dir_failure(r) is None,
    {
        let base = clone_path(&path);
        DirPlan::fresh(DirGoal::Create, base, path)
    }

    /// Opens an existing directory and verifies that it is private; the
    /// plan fails with [`Error::InsecurePermissions`] if the directory is
    /// accessible by anyone other than the owner.
    pub fn open(path: PathBuf) -> (r: DirPlan)
        ensures
            dir_goal(r) == DirGoal::Open,
            dir_path(r) == path,
            dir_stage(r) == DirStage::Ready,
            dir_failure(r) is None,
    {
        let base = clone_path(&path);
        DirPlan::fresh(DirGoal::Open, base, path)
    }

    /// Opens an existing directory without checking its permissions.
    /// Symbolic links are still rejected.
    pub fn open_unchecked(path: PathBuf) -> (r: DirPlan)
        ensures
            dir_goal(r) == DirGoal::OpenUnchecked,
            dir_path(r) == path,
            dir_stage(r) == DirStage::Ready,
            dir_failure(r) is None,
    {
        let base = clone_path(&path);
        DirPlan::fresh(DirGoal::OpenUnchecked, base, path)
    }

    /// Tightens the permissions of this directory to owner-only and
    /// verifies the result.
    pub fn ensure_private(self) -> (r: DirPlan)
        ensures
            dir_goal(r) == DirGoal::EnsurePrivate,
            dir_path(r) == self@,
            dir_stage(r) == DirStage::Ready,
            dir_failure(r) is None,
    {
        let base = clone_path(&self.path);
        DirPlan::fresh(DirGoal::EnsurePrivate, base, self.path)
    }

    /// The question whose answer says whether only the owner can access
    /// this directory.
    pub fn is_private(&self) -> (r: Request)
        ensures
            r == Request::CheckDirPrivate(self@),
    {
        Request::CheckDirPrivate(clone_path(&self.path))
    }

    /// The request that reads this directory's permissions.
    pub fn permissions(&self) -> (r: Request)
        ensures
            r == Request::DirPermissions(self@),
    {
        Request::DirPermissions(clone_path(&self.path))
    }

    /// Returns the path of this directory.
    pub fn path(&self) -> (r: &PathBuf)
        ensures
            *r == self@,
    {
        &self.path
    }
}

/// Law: a plan that verifies (opening with verification, tightening, or
/// reusing an existing application directory) only hands out a directory
/// right after the host said that the directory is private, and then it is
/// the plan's own directory.
pub proof fn lemma_dir_verified_before_success(p: DirPlan, reply: Reply, d: SecureDir)
    requires
        dir_well_formed(p),
        dir_goal(p) == DirGoal::Open || dir_goal(p) == DirGoal::EnsurePrivate || (dir_goal(p)
            == DirGoal::AppDir && dir_stage(p) != DirStage::Creating),
        dir_awaits(dir_stage(p)) == Some(reply_kind(reply)),
        dir_next(p, reply).1 == Step::<SecureDir>::Finish(Ok(d)),
    ensures
        dir_stage(p) == DirStage::Checking,
        reply == Reply::Answer(Ok(true)),
        d@ == dir_path(p),
{
}

/// Law: every directory that a plan hands out is the plan's own directory.
pub proof fn lemma_dir_result_path(p: DirPlan, reply: Reply, d: SecureDir)
    requires
        dir_next(p, reply).1 == Step::<SecureDir>::Finish(Ok(d)),
    ensures
        d@ == dir_path(p),
{
}

/// Law: an error from the host ends the plan with that same error; the one
/// exception is "already exists" when an application directory is created,
/// which makes the plan open the existing directory instead.
pub proof fn lemma_dir_errors_pass_through(p: DirPlan, e: Error)
    requires
        dir_stage(p) != DirStage::Checking,
        !(dir_goal(p) == DirGoal::AppDir && dir_stage(p) == DirStage::Creating && e is AlreadyExists),
    ensures
        dir_next(p, Reply::Status(Err(e))) == (DirStage::Done, Step::<SecureDir>::Finish(Err(e))),
{
}

/// Law: a directory the host reports as accessible by others is never handed
/// out: the plan ends with `InsecurePermissions`.
pub proof fn lemma_dir_rejects_insecure(p: DirPlan)
    ensures
        dir_next(p, Reply::Answer(Ok(false))) == (
            DirStage::Done,
            Step::<SecureDir>::Finish(Err(Error::InsecurePermissions)),
        ),
{
}

/// Law: a plan that opens a directory (checked or not) starts by asking to
/// open that very directory, and never asks to create a directory at any
/// step: opening a missing directory fails instead of making one.
pub proof fn lemma_dir_open_never_creates(p: DirPlan, reply: Reply)
    requires
        dir_goal(p) == DirGoal::Open || dir_goal(p) == DirGoal::OpenUnchecked,
        dir_well_formed(p),
    ensures
        dir_failure(p) is None ==> dir_first(p) == (
            DirStage::Opening,
            Step::<SecureDir>::Perform(Request::OpenDir(dir_path(p))),
        ),
        !(dir_first(p).1 matches Step::Perform(Request::CreateDir(_))),
        !(dir_first(p).1 matches Step::Perform(Request::CreateDirAll(_))),
        !(dir_next(p, reply).1 matches Step::Perform(Request::CreateDir(_))),
        !(dir_next(p, reply).1 matches Step::Perform(Request::CreateDirAll(_))),
{
}

/// Law: creating a directory starts by asking to create exactly that
/// directory, and hands it out as soon as the host created it; tightening
/// starts by tightening that directory and then asks whether it is private;
/// an unchecked open hands the directory out as soon as the host opened it,
/// while a checked open first asks whether it is private.
pub proof fn lemma_dir_goal_steps(p: DirPlan, d: SecureDir)
    requires
        dir_failure(p) is None,
    ensures
        dir_goal(p) == DirGoal::Create ==> dir_first(p) == (
            DirStage::Creating,
            Step::<SecureDir>::Perform(Request::CreateDir(dir_path(p))),
        ),
        dir_goal(p) == DirGoal::Create && dir_stage(p) == DirStage::Creating && dir_next(
            p,
            Reply::Status(Ok(())),
        ).1 == Step::<SecureDir>::Finish(Ok(d)) ==> d@ == dir_path(p),
        dir_goal(p) == DirGoal::Create && dir_stage(p) == DirStage::Creating ==> dir_next(
            p,
            Reply::Status(Ok(())),
        ).1 matches Step::Finish(Ok(_)),
        dir_goal(p) == DirGoal::EnsurePrivate ==> dir_first(p) == (
            DirStage::Tightening,
            Step::<SecureDir>::Perform(Request::TightenDir(dir_path(p))),
        ),
        dir_goal(p) == DirGoal::EnsurePrivate && dir_stage(p) == DirStage::Tightening ==> dir_next(
            p,
            Reply::Status(Ok(())),
        ) == (DirStage::Checking, Step::<SecureDir>::Perform(Request::CheckDirPrivate(dir_path(p)))),
        dir_goal(p) == DirGoal::Open && dir_stage(p) == DirStage::Opening ==> dir_next(
            p,
            Reply::Status(Ok(())),
        ) == (DirStage::Checking, Step::<SecureDir>::Perform(Request::CheckDirPrivate(dir_path(p)))),
        dir_goal(p) == DirGoal::OpenUnchecked && dir_stage(p) == DirStage::Opening ==> dir_next(
            p,
            Reply::Status(Ok(())),
        ).1 matches Step::Finish(Ok(_)),
{
    lemma_secure_dir_path(dir_path(p));
}

} // verus!

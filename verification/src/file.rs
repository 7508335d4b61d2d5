use vstd::prelude::*;

use std::path::PathBuf;

use crate::error::Error;
use crate::platform::clone_path;
use crate::request::{reply_kind, verdict, Reply, ReplyKind, Request, Step};

verus! {

/// Where a plan that writes a whole private file stands.
#[derive(Debug, Clone, Copy, PartialEq, Eq, Structural)]
pub enum WriteStage {
    Ready,
    Creating,
    Opening,
    Tightening,
    Checking,
    Truncating,
    Writing,
    Syncing,
    Done,
}

/// The steps that write `data` to a file that only the current user can
/// access: create it exclusively; if it exists already, open it for
/// writing, tighten it to owner-only, verify that, and truncate it; then
/// write and sync.
#[derive(Debug)]
pub struct WritePlan {
    path: PathBuf,
    data: Option<Vec<u8>>,
    stage: WriteStage,
}

/// The file that the plan writes.
pub closed spec fn write_path(p: WritePlan) -> PathBuf {
    p.path
}

/// The bytes that the plan has still to write.
pub closed spec fn write_data(p: WritePlan) -> Option<Vec<u8>> {
    p.data
}

/// Where the plan stands.
pub closed spec fn write_stage(p: WritePlan) -> WriteStage {
    p.stage
}

/// Whether the plan still holds its bytes exactly until it writes them.
pub open spec fn write_well_formed(p: WritePlan) -> bool {
    match write_stage(p) {
        WriteStage::Writing => write_data(p) is None,
        WriteStage::Syncing => write_data(p) is None,
        WriteStage::Done => true,
        _ => write_data(p) is Some,
    }
}

/// The reply that a plan in `stage` waits for.
pub open spec fn write_awaits(stage: WriteStage) -> Option<ReplyKind> {
    match stage {
        WriteStage::Ready => None,
        WriteStage::Done => None,
        WriteStage::Checking => Some(ReplyKind::Answer),
        _ => Some(ReplyKind::Status),
    }
}

/// The step that writes the plan's bytes.
pub open spec fn write_step(p: WritePlan) -> (WriteStage, Step<()>) {
    (WriteStage::Writing, Step::Perform(Request::WriteFile(write_data(p)->0)))
}

/// The step that follows a reply, and the stage it leads to.
pub open spec fn write_next(p: WritePlan, reply: Reply) -> (WriteStage, Step<()>) {
    match reply {
        Reply::Status(Err(e)) => {
            if write_stage(p) == WriteStage::Creating && e is AlreadyExists {
                (WriteStage::Opening, Step::Perform(Request::OpenFile(write_path(p), true)))
            } else {
                (WriteStage::Done, Step::Finish(Err(e)))
            }
        },
        Reply::Status(Ok(())) => match write_stage(p) {
            WriteStage::Creating => write_step(p),
            WriteStage::Opening => (WriteStage::Tightening, Step::Perform(Request::TightenFile)),
            WriteStage::Tightening => (
                WriteStage::Checking,
                Step::Perform(Request::CheckFilePrivate),
            ),
            WriteStage::Truncating => write_step(p),
            WriteStage::Writing => (WriteStage::Syncing, Step::Perform(Request::SyncFile)),
            _ => (WriteStage::Done, Step::Finish(Ok(()))),
        },
        Reply::Answer(a) => match verdict(a) {
            Ok(()) => (WriteStage::Truncating, Step::Perform(Request::TruncateFile)),
            Err(e) => (WriteStage::Done, Step::Finish(Err(e))),
        },
        _ => (WriteStage::Done, Step::Finish(Err(Error::InvalidInput))),
    }
}

impl WritePlan {
    /// The plan for writing `data` to the private file at `path`.
    pub fn new(path: PathBuf, data: Vec<u8>) -> (r: WritePlan)
        ensures
            write_path(r) == path,
            write_data(r) == Some(data),
            write_stage(r) == WriteStage::Ready,
    {
        WritePlan { path, data: Some(data), stage: WriteStage::Ready }
    }

    /// The first step: create the file exclusively.
    pub fn start(&mut self) -> (r: Step<()>)
        requires
            write_stage(*old(self)) == WriteStage::Ready,
            write_well_formed(*old(self)),
        ensures
            write_path(*final(self)) == write_path(*old(self)),
            write_data(*final(self)) == write_data(*old(self)),
            write_stage(*final(self)) == WriteStage::Creating,
            write_well_formed(*final(self)),
            r == Step::<()>::Perform(Request::CreateFile(write_path(*old(self)))),
    {
        self.stage = WriteStage::Creating;
        Step::Perform(Request::CreateFile(clone_path(&self.path)))
    }

    /// The step that follows the host's reply to the last request.
    pub fn resume(&mut self, reply: Reply) -> (r: Step<()>)
        requires
            write_awaits(write_stage(*old(self))) == Some(reply_kind(reply)),
            write_well_formed(*old(self)),
        ensures
            write_path(*final(self)) == write_path(*old(self)),
            write_well_formed(*final(self)),
            (write_stage(*final(self)), r) == write_next(*old(self), reply),
            write_stage(*final(self)) != WriteStage::Writing ==> write_data(*final(self))
                == write_data(*old(self)) || write_stage(*final(self)) == WriteStage::Done,
    {
        match reply {
            Reply::Status(Err(e)) => {
                if self.stage == WriteStage::Creating && matches!(e, Error::AlreadyExists) {
                    self.stage = WriteStage::Opening;
                    Step::Perform(Request::OpenFile(clone_path(&self.path), true))
                } else {
                    self.stage = WriteStage::Done;
                    Step::Finish(Err(e))
                }
            },
            Reply::Status(Ok(())) => match self.stage {
                WriteStage::Creating => self.write_step(),
                WriteStage::Opening => {
                    self.stage = WriteStage::Tightening;
                    Step::Perform(Request::TightenFile)
                },
                WriteStage::Tightening => {
                    self.stage = WriteStage::Checking;
                    Step::Perform(Request::CheckFilePrivate)
                },
                WriteStage::Truncating => self.write_step(),
                WriteStage::Writing => {
                    self.stage = WriteStage::Syncing;
                    Step::Perform(Request::SyncFile)
                },
                _ => {
                    self.stage = WriteStage::Done;
                    Step::Finish(Ok(()))
                },
            },
            Reply::Answer(a) => match a {
                Ok(true) => {
                    self.stage = WriteStage::Truncating;
                    Step::Perform(Request::TruncateFile)
                },
                Ok(false) => {
                    self.stage = WriteStage::Done;
                    Step::Finish(Err(Error::InsecurePermissions))
                },
                Err(e) => {
                    self.stage = WriteStage::Done;
                    Step::Finish(Err(e))
                },
            },
            _ => {
                self.stage = WriteStage::Done;
                Step::Finish(Err(Error::InvalidInput))
            },
        }
    }

    fn write_step(&mut self) -> (r: Step<()>)
        requires
            write_data(*old(self)) is Some,
        ensures
            write_path(*final(self)) == write_path(*old(self)),
            write_data(*final(self)) is None,
            (write_stage(*final(self)), r) == write_step(*old(self)),
    {
        let data = self.data.take().unwrap();
        self.stage = WriteStage::Writing;
        Step::Perform(Request::WriteFile(data))
    }
}

/// Where a plan that reads a whole private file stands.
#[derive(Debug, Clone, Copy, PartialEq, Eq, Structural)]
pub enum ReadStage {
    Ready,
    Opening,
    Checking,
    Reading,
    Done,
}

/// The steps that read a private file: open it, verify that only the owner
/// can access it, then read it to its end.
#[derive(Debug)]
pub struct ReadPlan {
    path: PathBuf,
    stage: ReadStage,
}

/// The file that the plan reads.
pub closed spec fn read_path(p: ReadPlan) -> PathBuf {
    p.path
}

/// Where the plan stands.
pub closed spec fn read_stage(p: ReadPlan) -> ReadStage {
    p.stage
}

/// The reply that a plan in `stage` waits for.
pub open spec fn read_awaits(stage: ReadStage) -> Option<ReplyKind> {
    match stage {
        ReadStage::Opening => Some(ReplyKind::Status),
        ReadStage::Checking => Some(ReplyKind::Answer),
        ReadStage::Reading => Some(ReplyKind::Data),
        _ => None,
    }
}

/// The step that follows a reply, and the stage it leads to.
pub open spec fn read_next(p: ReadPlan, reply: Reply) -> (ReadStage, Step<Vec<u8>>) {
    match reply {
        Reply::Status(Ok(())) => (ReadStage::Checking, Step::Perform(Request::CheckFilePrivate)),
        Reply::Status(Err(e)) => (ReadStage::Done, Step::Finish(Err(e))),
        Reply::Answer(a) => match verdict(a) {
            Ok(()) => (ReadStage::Reading, Step::Perform(Request::ReadFile)),
            Err(e) => (ReadStage::Done, Step::Finish(Err(e))),
        },
        Reply::Data(d) => (ReadStage::Done, Step::Finish(d)),
        _ => (ReadStage::Done, Step::Finish(Err(Error::InvalidInput))),
    }
}

impl ReadPlan {
    /// The plan for reading the private file at `path`.
    pub fn new(path: PathBuf) -> (r: ReadPlan)
        ensures
            read_path(r) == path,
            read_stage(r) == ReadStage::Ready,
    {
        ReadPlan { path, stage: ReadStage::Ready }
    }

    /// The first step: open the file without following a link.
    pub fn start(&mut self) -> (r: Step<Vec<u8>>)
        requires
            read_stage(*old(self)) == ReadStage::Ready,
        ensures
            read_path(*final(self)) == read_path(*old(self)),
            read_stage(*final(self)) == ReadStage::Opening,
            r == Step::<Vec<u8>>::Perform(Request::OpenFile(read_path(*old(self)), false)),
    {
        self.stage = ReadStage::Opening;
        Step::Perform(Request::OpenFile(clone_path(&self.path), false))
    }

    /// The step that follows the host's reply to the last request.
    pub fn resume(&mut self, reply: Reply) -> (r: Step<Vec<u8>>)
        requires
            read_awaits(read_stage(*old(self))) == Some(reply_kind(reply)),
        ensures
            read_path(*final(self)) == read_path(*old(self)),
            (read_stage(*final(self)), r) == read_next(*old(self), reply),
    {
        match reply {
            Reply::Status(Ok(())) => {
                self.stage = ReadStage::Checking;
                Step::Perform(Request::CheckFilePrivate)
            },
            Reply::Status(Err(e)) => {
                self.stage = ReadStage::Done;
                Step::Finish(Err(e))
            },
            Reply::Answer(a) => match a {
                Ok(true) => {
                    self.stage = ReadStage::Reading;
                    Step::Perform(Request::ReadFile)
                },
                Ok(false) => {
                    self.stage = ReadStage::Done;
                    Step::Finish(Err(Error::InsecurePermissions))
                },
                Err(e) => {
                    self.stage = ReadStage::Done;
                    Step::Finish(Err(e))
                },
            },
            Reply::Data(d) => {
                self.stage = ReadStage::Done;
                Step::Finish(d)
            },
            _ => {
                self.stage = ReadStage::Done;
                Step::Finish(Err(Error::InvalidInput))
            },
        }
    }
}

/// What a checked file plan does before the check.
#[derive(Debug, Clone, Copy, PartialEq, Eq, Structural)]
pub enum FileGoal {
    /// Open an existing file (read-only) and verify that it is private.
    Open,
    /// Tighten the open file to owner-only and verify the result.
    EnsurePrivate,
}

/// Where a checked file plan stands.
#[derive(Debug, Clone, Copy, PartialEq, Eq, Structural)]
pub enum CheckStage {
    Ready,
    Acting,
    Checking,
    Done,
}

/// The steps that yield a file known to be private: one action (an open or
/// a tightening), then the check.
#[derive(Debug)]
pub struct FilePlan {
    goal: FileGoal,
    path: PathBuf,
    stage: CheckStage,
}

/// The plan's goal.
pub closed spec fn file_goal(p: FilePlan) -> FileGoal {
    p.goal
}

/// The file that the plan concerns.
pub closed spec fn file_path(p: FilePlan) -> PathBuf {
    p.path
}

/// Where the plan stands.
pub closed spec fn file_stage(p: FilePlan) -> CheckStage {
    p.stage
}

/// The action that comes before the check.
pub open spec fn file_action(p: FilePlan) -> Request {
    match file_goal(p) {
        FileGoal::Open => Request::OpenFile(file_path(p), false),
        FileGoal::EnsurePrivate => Request::TightenFile,
    }
}

/// The reply that a plan in `stage` waits for.
pub open spec fn file_awaits(stage: CheckStage) -> Option<ReplyKind> {
    match stage {
        CheckStage::Acting => Some(ReplyKind::Status),
        CheckStage::Checking => Some(ReplyKind::Answer),
        _ => None,
    }
}

/// The step that follows a reply, and the stage it leads to.
pub open spec fn file_next(reply: Reply) -> (CheckStage, Step<()>) {
    match reply {
        Reply::Status(Ok(())) => (CheckStage::Checking, Step::Perform(Request::CheckFilePrivate)),
        Reply::Status(Err(e)) => (CheckStage::Done, Step::Finish(Err(e))),
        Reply::Answer(a) => (CheckStage::Done, Step::Finish(verdict(a))),
        _ => (CheckStage::Done, Step::Finish(Err(Error::InvalidInput))),
    }
}

impl FilePlan {
    /// The plan that opens the existing file at `path` and verifies that it
    /// is private.
    pub fn open(path: PathBuf) -> (r: FilePlan)
        ensures
            file_goal(r) == FileGoal::Open,
            file_path(r) == path,
            file_stage(r) == CheckStage::Ready,
    {
        FilePlan { goal: FileGoal::Open, path, stage: CheckStage::Ready }
    }

    /// The plan that tightens the open file at `path` to owner-only and
    /// verifies the result.
    pub fn ensure_private(path: PathBuf) -> (r: FilePlan)
        ensures
            file_goal(r) == FileGoal::EnsurePrivate,
            file_path(r) == path,
            file_stage(r) == CheckStage::Ready,
    {
        FilePlan { goal: FileGoal::EnsurePrivate, path, stage: CheckStage::Ready }
    }

    /// The first step: the action.
    pub fn start(&mut self) -> (r: Step<()>)
        requires
            file_stage(*old(self)) == CheckStage::Ready,
        ensures
            file_goal(*final(self)) == file_goal(*old(self)),
            file_path(*final(self)) == file_path(*old(self)),
            file_stage(*final(self)) == CheckStage::Acting,
            r == Step::<()>::Perform(file_action(*old(self))),
    {
        self.stage = CheckStage::Acting;
        match self.goal {
            FileGoal::Open => Step::Perform(Request::OpenFile(clone_path(&self.path), false)),
            FileGoal::EnsurePrivate => Step::Perform(Request::TightenFile),
        }
    }

    /// The step that follows the host's reply to the last request.
    pub fn resume(&mut self, reply: Reply) -> (r: Step<()>)
        requires
            file_awaits(file_stage(*old(self))) == Some(reply_kind(reply)),
        ensures
            file_goal(*final(self)) == file_goal(*old(self)),
            file_path(*final(self)) == file_path(*old(self)),
            (file_stage(*final(self)), r) == file_next(reply),
    {
        match reply {
            Reply::Status(Ok(())) => {
                self.stage = CheckStage::Checking;
                Step::Perform(Request::CheckFilePrivate)
            },
            Reply::Status(Err(e)) => {
                self.stage = CheckStage::Done;
                Step::Finish(Err(e))
            },
            Reply::Answer(a) => {
                self.stage = CheckStage::Done;
                Step::Finish(crate::request::require_private(a))
            },
            _ => {
                self.stage = CheckStage::Done;
                Step::Finish(Err(Error::InvalidInput))
            },
        }
    }
}

/// Law: writing a private file hands over exactly the bytes it was given,
/// in one write, whether the file was new or existed.
pub proof fn lemma_write_sends_data(p: WritePlan, reply: Reply, bytes: Vec<u8>)
    requires
        write_well_formed(p),
        write_awaits(write_stage(p)) == Some(reply_kind(reply)),
        write_next(p, reply).1 == Step::<()>::Perform(Request::WriteFile(bytes)),
    ensures
        write_data(p) == Some(bytes),
        reply matches Reply::Status(Ok(_)),
        write_stage(p) == WriteStage::Creating || write_stage(p) == WriteStage::Truncating,
{
}

/// Law: when the file exists already, it is truncated (and then written)
/// only after it was tightened and the host confirmed that it is private.
pub proof fn lemma_write_truncates_only_private(p: WritePlan, reply: Reply)
    requires
        write_awaits(write_stage(p)) == Some(reply_kind(reply)),
        write_next(p, reply).1 == Step::<()>::Perform(Request::TruncateFile),
    ensures
        write_stage(p) == WriteStage::Checking,
        reply == Reply::Answer(Ok(true)),
{
}

/// Law: writing succeeds only once the written data was synced.
pub proof fn lemma_write_succeeds_after_sync(p: WritePlan, reply: Reply)
    requires
        write_awaits(write_stage(p)) == Some(reply_kind(reply)),
        write_next(p, reply).1 == Step::<()>::Finish(Ok(())),
    ensures
        write_stage(p) == WriteStage::Syncing,
        reply matches Reply::Status(Ok(_)),
{
}

/// Law: reading a private file returns data only after the host confirmed
/// that the file is private, and returns exactly the data that was read.
pub proof fn lemma_read_checks_before_reading(p: ReadPlan, reply: Reply, bytes: Vec<u8>)
    requires
        read_awaits(read_stage(p)) == Some(reply_kind(reply)),
    ensures
        read_next(p, reply).1 == Step::<Vec<u8>>::Perform(Request::ReadFile) ==> read_stage(p)
            == ReadStage::Checking && reply == Reply::Answer(Ok(true)),
        read_next(p, reply).1 == Step::<Vec<u8>>::Finish(Ok(bytes)) ==> read_stage(p)
            == ReadStage::Reading && reply == Reply::Data(Ok(bytes)),
{
}

/// Law: a checked file plan succeeds only right after the host said the file
/// is private, and reports an insecure file as `InsecurePermissions`.
pub proof fn lemma_file_plan_verifies(p: FilePlan, reply: Reply)
    requires
        file_awaits(file_stage(p)) == Some(reply_kind(reply)),
    ensures
        file_next(reply).1 == Step::<()>::Finish(Ok(())) ==> file_stage(p) == CheckStage::Checking
            && reply == Reply::Answer(Ok(true)),
        reply == Reply::Answer(Ok(false)) ==> file_next(reply).1 == Step::<()>::Finish(
            Err(Error::InsecurePermissions),
        ),
{
}

/// Law: a private write first tries to create the file exclusively; when it
/// exists already, the plan opens it for writing, tightens it, and asks
/// whether it is private before anything else; any other failure to create
/// it ends the plan with that failure.
pub proof fn lemma_write_existing_file_steps(p: WritePlan, e: Error)
    requires
        write_well_formed(p),
    ensures
        write_stage(p) == WriteStage::Creating && e is AlreadyExists ==> write_next(
            p,
            Reply::Status(Err(e)),
        ) == (WriteStage::Opening, Step::<()>::Perform(Request::OpenFile(write_path(p), true))),
        write_stage(p) == WriteStage::Creating && !(e is AlreadyExists) ==> write_next(
            p,
            Reply::Status(Err(e)),
        ) == (WriteStage::Done, Step::<()>::Finish(Err(e))),
        write_stage(p) == WriteStage::Opening ==> write_next(p, Reply::Status(Ok(()))) == (
            WriteStage::Tightening,
            Step::<()>::Perform(Request::TightenFile),
        ),
        write_stage(p) == WriteStage::Tightening ==> write_next(p, Reply::Status(Ok(()))) == (
            WriteStage::Checking,
            Step::<()>::Perform(Request::CheckFilePrivate),
        ),
        write_stage(p) == WriteStage::Writing ==> write_next(p, Reply::Status(Ok(()))) == (
            WriteStage::Syncing,
            Step::<()>::Perform(Request::SyncFile),
        ),
{
}

} // verus!

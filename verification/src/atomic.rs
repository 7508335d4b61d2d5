use vstd::prelude::*;

use std::path::PathBuf;

use crate::error::Error;
use crate::platform::{clone_path, path_joined, path_parent, path_parent_of};
use crate::request::{reply_kind, Reply, ReplyKind, Request, Step};
use crate::temp::{
    temp_attempts, temp_awaits, temp_candidate, temp_dir, temp_kind, temp_name_of, temp_prefix,
    temp_resumed, temp_stage, temp_well_formed, TempKind, TempPlan, TempStage,
};

verus! {

/// Where a plan that replaces a file atomically stands.
#[derive(Debug, Clone, Copy, PartialEq, Eq, Structural)]
pub enum AtomicStage {
    Ready,
    Probing,
    Creating,
    Writing,
    Syncing,
    Renaming,
    Removing,
    Done,
}

/// The steps that write `data` to a private file by way of a temporary
/// file: reject the destination if it is a symbolic link; create an
/// owner-only temporary file with an unpredictable name in the
/// destination's directory; write the bytes to it, sync it, and rename it
/// over the destination. When writing, syncing or renaming fails, the
/// temporary file is removed before the plan fails with that error.
#[derive(Debug)]
pub struct AtomicWritePlan {
    path: PathBuf,
    data: Option<Vec<u8>>,
    stage: AtomicStage,
    temp: Option<TempPlan>,
    temp_path: Option<PathBuf>,
    pending: Option<Error>,
}

/// The file that the plan replaces.
pub closed spec fn atomic_path(p: AtomicWritePlan) -> PathBuf {
    p.path
}

/// The bytes that the plan has still to write.
pub closed spec fn atomic_data(p: AtomicWritePlan) -> Option<Vec<u8>> {
    p.data
}

/// Where the plan stands.
pub closed spec fn atomic_stage(p: AtomicWritePlan) -> AtomicStage {
    p.stage
}

/// The plan that creates the temporary file, once the destination's
/// directory is known.
pub closed spec fn atomic_temp(p: AtomicWritePlan) -> Option<TempPlan> {
    p.temp
}

/// The temporary file, once it is created.
pub closed spec fn atomic_temp_path(p: AtomicWritePlan) -> Option<PathBuf> {
    p.temp_path
}

/// The error that the plan fails with once the temporary file is removed.
pub closed spec fn atomic_pending(p: AtomicWritePlan) -> Option<Error> {
    p.pending
}

/// Whether the temporary plan `t` creates a file in the directory that
/// holds `path`.
pub open spec fn creates_beside(t: TempPlan, path: PathBuf) -> bool {
    &&& temp_kind(t) == TempKind::File
    &&& path_parent_of(path) == Some(temp_dir(t))
    &&& temp_well_formed(t)
}

/// Whether the plan holds what its stage needs: its bytes until it writes
/// them, a temporary plan beside the destination while the temporary file
/// is made, the temporary file once it exists, and the error to fail with
/// while it is removed.
pub open spec fn atomic_well_formed(p: AtomicWritePlan) -> bool {
    match atomic_stage(p) {
        AtomicStage::Ready => atomic_data(p) is Some,
        AtomicStage::Probing => {
            &&& atomic_data(p) is Some
            &&& atomic_temp(p) is Some
            &&& creates_beside(atomic_temp(p)->0, atomic_path(p))
            &&& temp_stage(atomic_temp(p)->0) == TempStage::Ready
        },
        AtomicStage::Creating => {
            &&& atomic_data(p) is Some
            &&& atomic_temp(p) is Some
            &&& creates_beside(atomic_temp(p)->0, atomic_path(p))
            &&& (temp_stage(atomic_temp(p)->0) == TempStage::Drawing || temp_stage(
                atomic_temp(p)->0,
            ) == TempStage::Creating)
        },
        AtomicStage::Removing => atomic_temp_path(p) is Some && atomic_pending(p) is Some,
        AtomicStage::Done => true,
        _ => atomic_temp_path(p) is Some,
    }
}

/// The reply that the plan waits for.
pub open spec fn atomic_awaits(p: AtomicWritePlan) -> Option<ReplyKind> {
    match atomic_stage(p) {
        AtomicStage::Probing => Some(ReplyKind::Answer),
        AtomicStage::Creating => temp_awaits(temp_stage(atomic_temp(p)->0)),
        AtomicStage::Writing => Some(ReplyKind::Status),
        AtomicStage::Syncing => Some(ReplyKind::Status),
        AtomicStage::Renaming => Some(ReplyKind::Status),
        AtomicStage::Removing => Some(ReplyKind::Status),
        _ => None,
    }
}

/// How the plan goes on from `old` to `new` after its temporary plan said
/// `s`: a request is passed on; a failure ends the plan, as nothing was
/// created; the created temporary file is written with the plan's bytes.
pub open spec fn atomic_after_temp(
    old: AtomicWritePlan,
    new: AtomicWritePlan,
    s: Step<PathBuf>,
    r: Step<()>,
) -> bool {
    match s {
        Step::Perform(q) => atomic_stage(new) == AtomicStage::Creating && r == Step::<()>::Perform(
            q,
        ),
        Step::Finish(Err(e)) => atomic_stage(new) == AtomicStage::Done && r == Step::<()>::Finish(
            Err(e),
        ),
        Step::Finish(Ok(c)) => {
            &&& atomic_stage(new) == AtomicStage::Writing
            &&& atomic_temp_path(new) == Some(c)
            &&& r == Step::<()>::Perform(Request::WriteFile(atomic_data(old)->0))
        },
    }
}

/// How the plan goes on when writing, syncing or renaming failed with `e`:
/// it removes the temporary file, and keeps `e` to fail with.
pub open spec fn atomic_removes(
    old: AtomicWritePlan,
    new: AtomicWritePlan,
    e: Error,
    r: Step<()>,
) -> bool {
    &&& atomic_stage(new) == AtomicStage::Removing
    &&& atomic_temp_path(new) == atomic_temp_path(old)
    &&& atomic_pending(new) == Some(e)
    &&& r == Step::<()>::Perform(Request::RemoveFile(atomic_temp_path(old)->0))
}

/// How the plan moves on after `reply`, from `old` to `new`, saying `r`.
pub open spec fn atomic_resumed(
    old: AtomicWritePlan,
    new: AtomicWritePlan,
    reply: Reply,
    r: Step<()>,
) -> bool {
    match atomic_stage(old) {
        AtomicStage::Probing => match reply {
            Reply::Answer(Ok(true)) => atomic_stage(new) == AtomicStage::Done && r
                == Step::<()>::Finish(Err(Error::SymlinkDetected)),
            Reply::Answer(Ok(false)) => {
                &&& atomic_stage(new) == AtomicStage::Creating
                &&& atomic_data(new) == atomic_data(old)
                &&& atomic_temp(new) is Some
                &&& temp_kind(atomic_temp(new)->0) == temp_kind(atomic_temp(old)->0)
                &&& temp_dir(atomic_temp(new)->0) == temp_dir(atomic_temp(old)->0)
                &&& temp_attempts(atomic_temp(new)->0) == temp_attempts(atomic_temp(old)->0)
                &&& temp_stage(atomic_temp(new)->0) == TempStage::Drawing
                &&& r == Step::<()>::Perform(Request::DrawRandom)
            },
            Reply::Answer(Err(e)) => atomic_stage(new) == AtomicStage::Done && r
                == Step::<()>::Finish(Err(e)),
            _ => atomic_stage(new) == AtomicStage::Done,
        },
        AtomicStage::Creating => {
            &&& atomic_data(new) == atomic_data(old) || atomic_stage(new) != AtomicStage::Creating
            &&& atomic_temp(new) is Some
            &&& temp_kind(atomic_temp(new)->0) == temp_kind(atomic_temp(old)->0)
            &&& temp_dir(atomic_temp(new)->0) == temp_dir(atomic_temp(old)->0)
            &&& exists|s: Step<PathBuf>|
                temp_resumed(atomic_temp(old)->0, atomic_temp(new)->0, reply, s)
                    && atomic_after_temp(old, new, s, r)
        },
        AtomicStage::Writing => match reply {
            Reply::Status(Ok(_)) => {
                &&& atomic_stage(new) == AtomicStage::Syncing
                &&& atomic_temp_path(new) == atomic_temp_path(old)
                &&& r == Step::<()>::Perform(Request::SyncFile)
            },
            Reply::Status(Err(e)) => atomic_removes(old, new, e, r),
            _ => atomic_stage(new) == AtomicStage::Done,
        },
        AtomicStage::Syncing => match reply {
            Reply::Status(Ok(_)) => {
                &&& atomic_stage(new) == AtomicStage::Renaming
                &&& atomic_temp_path(new) == atomic_temp_path(old)
                &&& r == Step::<()>::Perform(
                    Request::Rename(atomic_temp_path(old)->0, atomic_path(old)),
                )
            },
            Reply::Status(Err(e)) => atomic_removes(old, new, e, r),
            _ => atomic_stage(new) == AtomicStage::Done,
        },
        AtomicStage::Renaming => match reply {
            Reply::Status(Ok(_)) => atomic_stage(new) == AtomicStage::Done && r
                == Step::<()>::Finish(Ok(())),
            Reply::Status(Err(e)) => atomic_removes(old, new, e, r),
            _ => atomic_stage(new) == AtomicStage::Done,
        },
        AtomicStage::Removing => atomic_stage(new) == AtomicStage::Done && r == Step::<
            (),
        >::Finish(Err(atomic_pending(old)->0)),
        _ => atomic_stage(new) == AtomicStage::Done,
    }
}

impl AtomicWritePlan {
    /// The plan for replacing the file at `path` with `data` atomically.
    pub fn new(path: PathBuf, data: Vec<u8>) -> (r: AtomicWritePlan)
        ensures
            atomic_path(r) == path,
            atomic_data(r) == Some(data),
            atomic_stage(r) == AtomicStage::Ready,
            atomic_temp(r) is None,
            atomic_temp_path(r) is None,
            atomic_pending(r) is None,
    {
        AtomicWritePlan {
            path,
            data: Some(data),
            stage: AtomicStage::Ready,
            temp: None,
            temp_path: None,
            pending: None,
        }
    }

    /// The first step: ask whether the destination is a symbolic link. A
    /// path without a directory that holds it (a root, or the empty path)
    /// is `InvalidInput`.
    pub fn start(&mut self) -> (r: Step<()>)
        requires
            atomic_stage(*old(self)) == AtomicStage::Ready,
            atomic_well_formed(*old(self)),
        ensures
            atomic_path(*final(self)) == atomic_path(*old(self)),
            atomic_data(*final(self)) == atomic_data(*old(self)),
            atomic_well_formed(*final(self)),
            path_parent_of(atomic_path(*old(self))) is None ==> atomic_stage(*final(self))
                == AtomicStage::Done && r == Step::<()>::Finish(Err(Error::InvalidInput)),
            path_parent_of(atomic_path(*old(self))) is Some ==> {
                &&& atomic_stage(*final(self)) == AtomicStage::Probing
                &&& temp_attempts(atomic_temp(*final(self))->0) == 0
                &&& r == Step::<()>::Perform(Request::IsLink(atomic_path(*old(self))))
            },
    {
        match path_parent(&self.path) {
            None => {
                self.stage = AtomicStage::Done;
                Step::Finish(Err(Error::InvalidInput))
            },
            Some(dir) => {
                self.temp = Some(TempPlan::new(TempKind::File, dir));
                self.stage = AtomicStage::Probing;
                Step::Perform(Request::IsLink(clone_path(&self.path)))
            },
        }
    }

    /// The step that follows the host's reply to the last request.
    ///
    /// A destination that is a symbolic link ends the plan with
    /// `SymlinkDetected`. Otherwise the temporary plan runs; what it fails
    /// with ends this plan, and the file it creates is written, synced and
    /// renamed over the destination. A failure of any of these three removes
    /// the temporary file first.
    pub fn resume(&mut self, reply: Reply) -> (r: Step<()>)
        requires
            atomic_awaits(*old(self)) == Some(reply_kind(reply)),
            atomic_well_formed(*old(self)),
        ensures
            atomic_path(*final(self)) == atomic_path(*old(self)),
            atomic_well_formed(*final(self)),
            atomic_resumed(*old(self), *final(self), reply, r),
    {
        match self.stage {
            AtomicStage::Probing => self.after_probe(reply),
            AtomicStage::Creating => {
                let mut temp = self.temp.take().unwrap();
                let s = temp.resume(reply);
                let ghost said = s;
                self.temp = Some(temp);
                let r = match s {
                    Step::Perform(q) => Step::Perform(q),
                    Step::Finish(Err(e)) => {
                        self.stage = AtomicStage::Done;
                        Step::Finish(Err(e))
                    },
                    Step::Finish(Ok(created)) => {
                        let data = self.data.take().unwrap();
                        self.temp_path = Some(created);
                        self.stage = AtomicStage::Writing;
                        Step::Perform(Request::WriteFile(data))
                    },
                };
                assert(atomic_after_temp(*old(self), *self, said, r));
                r
            },
            AtomicStage::Removing => {
                let e = self.pending.take().unwrap();
                self.stage = AtomicStage::Done;
                Step::Finish(Err(e))
            },
            AtomicStage::Writing => self.after_status(reply),
            AtomicStage::Syncing => self.after_status(reply),
            AtomicStage::Renaming => self.after_status(reply),
            _ => {
                self.stage = AtomicStage::Done;
                Step::Finish(Err(Error::InvalidInput))
            },
        }
    }

    fn after_probe(&mut self, reply: Reply) -> (r: Step<()>)
        requires
            atomic_stage(*old(self)) == AtomicStage::Probing,
            atomic_well_formed(*old(self)),
        ensures
            atomic_path(*final(self)) == atomic_path(*old(self)),
            atomic_well_formed(*final(self)),
            atomic_resumed(*old(self), *final(self), reply, r),
    {
        match reply {
            Reply::Answer(Ok(true)) => {
                self.stage = AtomicStage::Done;
                Step::Finish(Err(Error::SymlinkDetected))
            },
            Reply::Answer(Ok(false)) => {
                let mut temp = self.temp.take().unwrap();
                let _ = temp.start();
                self.temp = Some(temp);
                self.stage = AtomicStage::Creating;
                Step::Perform(Request::DrawRandom)
            },
            Reply::Answer(Err(e)) => {
                self.stage = AtomicStage::Done;
                Step::Finish(Err(e))
            },
            _ => {
                self.stage = AtomicStage::Done;
                Step::Finish(Err(Error::InvalidInput))
            },
        }
    }

    fn after_status(&mut self, reply: Reply) -> (r: Step<()>)
        requires
            atomic_stage(*old(self)) == AtomicStage::Writing || atomic_stage(*old(self))
                == AtomicStage::Syncing || atomic_stage(*old(self)) == AtomicStage::Renaming,
            atomic_well_formed(*old(self)),
        ensures
            atomic_path(*final(self)) == atomic_path(*old(self)),
            atomic_well_formed(*final(self)),
            atomic_resumed(*old(self), *final(self), reply, r),
    {
        match reply {
            Reply::Status(Ok(())) => {
                if self.stage == AtomicStage::Writing {
                    self.stage = AtomicStage::Syncing;
                    Step::Perform(Request::SyncFile)
                } else if self.stage == AtomicStage::Syncing {
                    let from = clone_path(self.temp_path.as_ref().unwrap());
                    let to = clone_path(&self.path);
                    self.stage = AtomicStage::Renaming;
                    Step::Perform(Request::Rename(from, to))
                } else {
                    self.stage = AtomicStage::Done;
                    Step::Finish(Ok(()))
                }
            },
            Reply::Status(Err(e)) => {
                let created = clone_path(self.temp_path.as_ref().unwrap());
                self.pending = Some(e);
                self.stage = AtomicStage::Removing;
                Step::Perform(Request::RemoveFile(created))
            },
            _ => {
                self.stage = AtomicStage::Done;
                Step::Finish(Err(Error::InvalidInput))
            },
        }
    }
}

/// Law: a destination that is a symbolic link is answered with
/// `SymlinkDetected`, before anything is created or written.
pub proof fn lemma_atomic_rejects_link(old: AtomicWritePlan, new: AtomicWritePlan, r: Step<()>)
    requires
        atomic_stage(old) == AtomicStage::Probing,
        atomic_resumed(old, new, Reply::Answer(Ok(true)), r),
    ensures
        r == Step::<()>::Finish(Err(Error::SymlinkDetected)),
        atomic_stage(new) == AtomicStage::Done,
{
}

/// Law: the temporary file is created in the directory that holds the
/// destination, under the temporary name made from the number drawn.
pub proof fn lemma_atomic_temp_beside(
    old: AtomicWritePlan,
    new: AtomicWritePlan,
    h: u64,
    r: Step<()>,
)
    requires
        atomic_well_formed(old),
        atomic_stage(old) == AtomicStage::Creating,
        atomic_resumed(old, new, Reply::Random(h), r),
    ensures
        r == Step::<()>::Perform(
            Request::CreateFile(
                path_joined(path_parent_of(atomic_path(old))->0, temp_name_of(temp_prefix(), h)),
            ),
        ),
        temp_candidate(atomic_temp(new)->0) == Some(
            path_joined(path_parent_of(atomic_path(old))->0, temp_name_of(temp_prefix(), h)),
        ),
        atomic_stage(new) == AtomicStage::Creating,
{
    let s = choose|s: Step<PathBuf>|
        temp_resumed(atomic_temp(old)->0, atomic_temp(new)->0, Reply::Random(h), s)
            && atomic_after_temp(old, new, s, r);
}

/// Law: the plan writes exactly its bytes, to the temporary file it
/// created; it syncs only after the write succeeded, renames the temporary
/// file over the destination only after the sync succeeded, and succeeds
/// only after the rename succeeded.
pub proof fn lemma_atomic_write_order(
    old: AtomicWritePlan,
    new: AtomicWritePlan,
    reply: Reply,
    r: Step<()>,
)
    requires
        atomic_well_formed(old),
        atomic_awaits(old) == Some(reply_kind(reply)),
        atomic_resumed(old, new, reply, r),
    ensures
        r matches Step::Perform(Request::WriteFile(_)) ==> {
            &&& atomic_stage(old) == AtomicStage::Creating
            &&& reply matches Reply::Status(Ok(_))
            &&& r == Step::<()>::Perform(Request::WriteFile(atomic_data(old)->0))
            &&& atomic_stage(new) == AtomicStage::Writing
            &&& atomic_temp_path(new) == temp_candidate(atomic_temp(old)->0)
        },
        r == Step::<()>::Perform(Request::SyncFile) ==> atomic_stage(old) == AtomicStage::Writing
            && reply matches Reply::Status(Ok(_)),
        r matches Step::Perform(Request::Rename(_, _)) ==> {
            &&& atomic_stage(old) == AtomicStage::Syncing
            &&& reply matches Reply::Status(Ok(_))
            &&& r == Step::<()>::Perform(
                Request::Rename(atomic_temp_path(old)->0, atomic_path(old)),
            )
        },
        r == Step::<()>::Finish(Ok(())) ==> atomic_stage(old) == AtomicStage::Renaming
            && reply matches Reply::Status(Ok(_)),
{
    if atomic_stage(old) == AtomicStage::Creating {
        let s = choose|s: Step<PathBuf>|
            temp_resumed(atomic_temp(old)->0, atomic_temp(new)->0, reply, s)
                && atomic_after_temp(old, new, s, r);
        assert(temp_resumed(atomic_temp(old)->0, atomic_temp(new)->0, reply, s));
    }
}

/// Law: once the temporary file exists, a failure to write, sync or rename
/// it removes that file, and the plan then fails with the first error,
/// whatever the removal answers.
pub proof fn lemma_atomic_cleans_up(
    old: AtomicWritePlan,
    mid: AtomicWritePlan,
    e: Error,
    r: Step<()>,
    new: AtomicWritePlan,
    reply: Reply,
    r2: Step<()>,
)
    requires
        atomic_well_formed(old),
        atomic_stage(old) == AtomicStage::Writing || atomic_stage(old) == AtomicStage::Syncing
            || atomic_stage(old) == AtomicStage::Renaming,
        atomic_resumed(old, mid, Reply::Status(Err(e)), r),
        atomic_resumed(mid, new, reply, r2),
    ensures
        r == Step::<()>::Perform(Request::RemoveFile(atomic_temp_path(old)->0)),
        r2 == Step::<()>::Finish(Err(e)),
        atomic_stage(new) == AtomicStage::Done,
{
}

} // verus!

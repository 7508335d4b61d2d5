use vstd::prelude::*;

use std::path::PathBuf;

use crate::error::Error;
use crate::platform::{clone_path, OpenParams};
use crate::request::{reply_kind, verdict, Reply, ReplyKind, Request, Step};

verus! {

/// A builder for opening or creating a file with fine-grained control.
///
/// The defaults are conservative: files are opened read-only, symlinks are
/// rejected, and existing files are verified to be owner-only before being
/// returned.
#[derive(Debug, Clone, Copy)]
pub struct SecureFileOptions {
    read: bool,
    write: bool,
    append: bool,
    truncate: bool,
    create: bool,
    create_new: bool,
    follow_symlinks: bool,
    verify_private: bool,
}

/// The settings of a [`SecureFileOptions`].
#[derive(Debug, Clone, Copy, PartialEq, Eq, Structural)]
pub struct OptionSet {
    pub read: bool,
    pub write: bool,
    pub append: bool,
    pub truncate: bool,
    pub create: bool,
    pub create_new: bool,
    pub follow_symlinks: bool,
    pub verify_private: bool,
}

impl View for SecureFileOptions {
    type V = OptionSet;

    closed spec fn view(&self) -> OptionSet {
        OptionSet {
            read: self.read,
            write: self.write,
            append: self.append,
            truncate: self.truncate,
            create: self.create,
            create_new: self.create_new,
            follow_symlinks: self.follow_symlinks,
            verify_private: self.verify_private,
        }
    }
}

/// The default settings: read-only, no creation, links rejected, existing
/// files verified.
pub open spec fn default_options() -> OptionSet {
    OptionSet {
        read: true,
        write: false,
        append: false,
        truncate: false,
        create: false,
        create_new: false,
        follow_symlinks: false,
        verify_private: true,
    }
}

/// Whether the settings can be opened: some access is asked for, creation
/// comes with write or append access, and truncation comes with write
/// access and without append.
pub open spec fn options_valid(o: OptionSet) -> bool {
    &&& o.read || o.write || o.append
    &&& (o.create || o.create_new) ==> (o.write || o.append)
    &&& o.truncate ==> o.write
    &&& !(o.truncate && o.append)
}

/// The platform parameters for valid settings: `create` also covers
/// `create_new`.
pub open spec fn params_of(o: OptionSet) -> OpenParams {
    OpenParams {
        read: o.read,
        write: o.write,
        append: o.append,
        truncate: o.truncate,
        create: o.create || o.create_new,
        create_new: o.create_new,
        follow_symlinks: o.follow_symlinks,
    }
}

/// What opening with the settings needs before touching the filesystem.
pub open spec fn validate_options(o: OptionSet) -> Result<OpenParams, Error> {
    if options_valid(o) {
        Ok(params_of(o))
    } else {
        Err(Error::InvalidInput)
    }
}

/// Whether an opened file must be verified: when it was just created (the
/// path did not exist, or exclusive creation was asked for), or when
/// verification is on.
pub open spec fn must_verify(o: OptionSet, existed: bool) -> bool {
    o.create_new || !existed || o.verify_private
}

impl Default for SecureFileOptions {
    fn default() -> (r: SecureFileOptions)
        ensures
            r@ == default_options(),
    {
        SecureFileOptions {
            read: true,
            write: false,
            append: false,
            truncate: false,
            create: false,
            create_new: false,
            follow_symlinks: false,
            verify_private: true,
        }
    }
}

impl SecureFileOptions {
    /// Creates a new set of options with secure defaults.
    pub fn new() -> (r: SecureFileOptions)
        ensures
            r@ == default_options(),
    {
        SecureFileOptions::default()
    }

    /// Sets whether the file is opened for reading (default `true`).
    pub fn read(self, read: bool) -> (r: SecureFileOptions)
        ensures
            r@ == (OptionSet { read, ..self@ }),
    {
        SecureFileOptions { read, ..self }
    }

    /// Sets whether the file is opened for writing.
    pub fn write(self, write: bool) -> (r: SecureFileOptions)
        ensures
            r@ == (OptionSet { write, ..self@ }),
    {
        SecureFileOptions { write, ..self }
    }

    /// Sets whether writes append to the end of the file.
    pub fn append(self, append: bool) -> (r: SecureFileOptions)
        ensures
            r@ == (OptionSet { append, ..self@ }),
    {
        SecureFileOptions { append, ..self }
    }

    /// Sets whether the file is truncated when opened.
    pub fn truncate(self, truncate: bool) -> (r: SecureFileOptions)
        ensures
            r@ == (OptionSet { truncate, ..self@ }),
    {
        SecureFileOptions { truncate, ..self }
    }

    /// Sets whether the file is created if it does not already exist.
    ///
    /// A newly created file receives owner-only permissions. An existing file
    /// is opened as-is and, unless verification is disabled, must already be
    /// owner-only. Creation requires write (or append) access; otherwise
    /// opening fails with [`Error::InvalidInput`].
    pub fn create(self, create: bool) -> (r: SecureFileOptions)
        ensures
            r@ == (OptionSet { create, ..self@ }),
    {
        SecureFileOptions { create, ..self }
    }

    /// Sets whether the file must be created and must not already exist.
    ///
    /// This is an exclusive, atomic create that always applies owner-only
    /// permissions. Creation requires write (or append) access; otherwise
    /// opening fails with [`Error::InvalidInput`].
    pub fn create_new(self, create_new: bool) -> (r: SecureFileOptions)
        ensures
            r@ == (OptionSet { create_new, ..self@ }),
    {
        SecureFileOptions { create_new, ..self }
    }

    /// Sets whether symbolic links (and Windows reparse points) are followed
    /// (default `false`).
    pub fn follow_symlinks(self, follow_symlinks: bool) -> (r: SecureFileOptions)
        ensures
            r@ == (OptionSet { follow_symlinks, ..self@ }),
    {
        SecureFileOptions { follow_symlinks, ..self }
    }

    /// Sets whether an existing file must be verified to be owner-only before
    /// being returned (default `true`).
    pub fn verify_private(self, verify_private: bool) -> (r: SecureFileOptions)
        ensures
            r@ == (OptionSet { verify_private, ..self@ }),
    {
        SecureFileOptions { verify_private, ..self }
    }

    /// Checks the settings and derives the platform parameters, before any
    /// filesystem work.
    pub fn validate(&self) -> (r: Result<OpenParams, Error>)
        ensures
            r == validate_options(self@),
    {
        if !(self.read || self.write || self.append) {
            return Err(Error::InvalidInput);
        }
        if (self.create || self.create_new) && !(self.write || self.append) {
            return Err(Error::InvalidInput);
        }
        if self.truncate && !self.write {
            return Err(Error::InvalidInput);
        }
        if self.truncate && self.append {
            return Err(Error::InvalidInput);
        }
        Ok(
            OpenParams {
                read: self.read,
                write: self.write,
                append: self.append,
                truncate: self.truncate,
                create: self.create || self.create_new,
                create_new: self.create_new,
                follow_symlinks: self.follow_symlinks,
            },
        )
    }

    /// Opens the file at `path` using these options.
    pub fn open(self, path: PathBuf) -> (r: OpenPlan)
        ensures
            open_options(r) == self@,
            open_path(r) == path,
            open_stage(r) == OpenStage::Ready,
    {
        OpenPlan { options: self, path, stage: OpenStage::Ready, existed: false }
    }
}

/// Where a plan that opens a file with options stands.
#[derive(Debug, Clone, Copy, PartialEq, Eq, Structural)]
pub enum OpenStage {
    Ready,
    Probing,
    Opening,
    Checking,
    Done,
}

/// The steps that open a file as a [`SecureFileOptions`] says: check the
/// settings; note whether the path exists; open it; and verify that it is
/// private if it was just created or verification is on.
#[derive(Debug)]
pub struct OpenPlan {
    options: SecureFileOptions,
    path: PathBuf,
    stage: OpenStage,
    existed: bool,
}

/// The settings that the plan opens with.
pub closed spec fn open_options(p: OpenPlan) -> OptionSet {
    p.options@
}

/// The file that the plan opens.
pub closed spec fn open_path(p: OpenPlan) -> PathBuf {
    p.path
}

/// Where the plan stands.
pub closed spec fn open_stage(p: OpenPlan) -> OpenStage {
    p.stage
}

/// Whether the path existed before the open.
pub closed spec fn open_existed(p: OpenPlan) -> bool {
    p.existed
}

/// The reply that a plan in `stage` waits for.
pub open spec fn open_awaits(stage: OpenStage) -> Option<ReplyKind> {
    match stage {
        OpenStage::Probing => Some(ReplyKind::Status),
        OpenStage::Opening => Some(ReplyKind::Status),
        OpenStage::Checking => Some(ReplyKind::Answer),
        _ => None,
    }
}

/// The first step of a plan and the stage it leads to.
pub open spec fn open_first(p: OpenPlan) -> (OpenStage, Step<()>) {
    match validate_options(open_options(p)) {
        Ok(_) => (OpenStage::Probing, Step::Perform(Request::Probe(open_path(p)))),
        Err(e) => (OpenStage::Done, Step::Finish(Err(e))),
    }
}

/// The step that follows a reply, the stage it leads to, and whether the
/// path is now known to have existed.
pub open spec fn open_next(p: OpenPlan, reply: Reply) -> (OpenStage, Step<()>, bool) {
    let o = open_options(p);
    match reply {
        Reply::Status(r) => if open_stage(p) == OpenStage::Probing {
            (
                OpenStage::Opening,
                Step::Perform(Request::OpenFileWith(open_path(p), params_of(o))),
                r is Ok,
            )
        } else {
            match r {
                Err(e) => (OpenStage::Done, Step::Finish(Err(e)), open_existed(p)),
                Ok(_) => if must_verify(o, open_existed(p)) {
                    (OpenStage::Checking, Step::Perform(Request::CheckFilePrivate), open_existed(p))
                } else {
                    (OpenStage::Done, Step::Finish(Ok(())), open_existed(p))
                },
            }
        },
        Reply::Answer(a) => (OpenStage::Done, Step::Finish(verdict(a)), open_existed(p)),
        _ => (OpenStage::Done, Step::Finish(Err(Error::InvalidInput)), open_existed(p)),
    }
}

impl OpenPlan {
    /// The first step: reject invalid settings, else look at the path.
    pub fn start(&mut self) -> (r: Step<()>)
        requires
            open_stage(*old(self)) == OpenStage::Ready,
        ensures
            open_options(*final(self)) == open_options(*old(self)),
            open_path(*final(self)) == open_path(*old(self)),
            open_existed(*final(self)) == open_existed(*old(self)),
            (open_stage(*final(self)), r) == open_first(*old(self)),
    {
        match self.options.validate() {
            Ok(_) => {
                self.stage = OpenStage::Probing;
                Step::Perform(Request::Probe(clone_path(&self.path)))
            },
            Err(e) => {
                self.stage = OpenStage::Done;
                Step::Finish(Err(e))
            },
        }
    }

    /// The step that follows the host's reply to the last request.
    pub fn resume(&mut self, reply: Reply) -> (r: Step<()>)
        requires
            open_awaits(open_stage(*old(self))) == Some(reply_kind(reply)),
        ensures
            open_options(*final(self)) == open_options(*old(self)),
            open_path(*final(self)) == open_path(*old(self)),
            (open_stage(*final(self)), r, open_existed(*final(self))) == open_next(
                *old(self),
                reply,
            ),
    {
        match reply {
            Reply::Status(r) => {
                if self.stage == OpenStage::Probing {
                    self.existed = r.is_ok();
                    self.stage = OpenStage::Opening;
                    let params = OpenParams {
                        read: self.options.read,
                        write: self.options.write,
                        append: self.options.append,
                        truncate: self.options.truncate,
                        create: self.options.create || self.options.create_new,
                        create_new: self.options.create_new,
                        follow_symlinks: self.options.follow_symlinks,
                    };
                    Step::Perform(Request::OpenFileWith(clone_path(&self.path), params))
                } else {
                    match r {
                        Err(e) => {
                            self.stage = OpenStage::Done;
                            Step::Finish(Err(e))
                        },
                        Ok(_) => {
                            let created = self.options.create_new || !self.existed;
                            if created || self.options.verify_private {
                                self.stage = OpenStage::Checking;
                                Step::Perform(Request::CheckFilePrivate)
                            } else {
                                self.stage = OpenStage::Done;
                                Step::Finish(Ok(()))
                            }
                        },
                    }
                }
            },
            Reply::Answer(a) => {
                self.stage = OpenStage::Done;
                Step::Finish(crate::request::require_private(a))
            },
            _ => {
                self.stage = OpenStage::Done;
                Step::Finish(Err(Error::InvalidInput))
            },
        }
    }
}

/// Law: settings that ask for no access, create without write or append,
/// truncate without write, or truncate with append are refused with
/// `InvalidInput` before any filesystem work; every other setting goes on to
/// look at the path.
pub proof fn lemma_open_validates_first(p: OpenPlan)
    ensures
        !options_valid(open_options(p)) ==> open_first(p) == (
            OpenStage::Done,
            Step::<()>::Finish(Err(Error::InvalidInput)),
        ),
        options_valid(open_options(p)) ==> open_first(p) == (
            OpenStage::Probing,
            Step::<()>::Perform(Request::Probe(open_path(p))),
        ),
{
}

/// Law: a file that was just created, or any file while verification is on,
/// is handed out only after the host confirmed that it is private; an
/// existing file with verification off is handed out as it is.
pub proof fn lemma_open_verifies_when_needed(p: OpenPlan, reply: Reply)
    requires
        open_stage(p) == OpenStage::Opening,
        reply matches Reply::Status(Ok(_)),
    ensures
        must_verify(open_options(p), open_existed(p)) ==> open_next(p, reply).1
            == Step::<()>::Perform(Request::CheckFilePrivate),
        !must_verify(open_options(p), open_existed(p)) ==> open_next(p, reply).1 == Step::<()>::Finish(
            Ok(()),
        ),
{
}

/// Law: the default settings are valid and open an existing file read-only,
/// never following a link, never creating.
pub proof fn lemma_default_options_read_only()
    ensures
        validate_options(default_options()) == Ok::<OpenParams, Error>(
            OpenParams {
                read: true,
                write: false,
                append: false,
                truncate: false,
                create: false,
                create_new: false,
                follow_symlinks: false,
            },
        ),
{
}

/// Law: settings are refused exactly when they ask for no access at all,
/// create without write or append access, truncate without write access, or
/// truncate while appending, and then with `InvalidInput`. Valid settings
/// pass their access, truncation and link handling on unchanged; creation
/// is asked for when either kind of creation is set. In particular appending
/// is access enough, also to create the file.
pub proof fn lemma_open_settings(o: OptionSet)
    ensures
        validate_options(o) is Err <==> (!o.read && !o.write && !o.append) || ((o.create
            || o.create_new) && !o.write && !o.append) || (o.truncate && !o.write) || (o.truncate
            && o.append),
        validate_options(o) is Err ==> validate_options(o) == Err::<OpenParams, Error>(
            Error::InvalidInput,
        ),
        validate_options(o) is Ok ==> validate_options(o) == Ok::<OpenParams, Error>(
            OpenParams {
                read: o.read,
                write: o.write,
                append: o.append,
                truncate: o.truncate,
                create: o.create || o.create_new,
                create_new: o.create_new,
                follow_symlinks: o.follow_symlinks,
            },
        ),
        o.append && !o.truncate ==> validate_options(o) is Ok,
{
}

/// Law: once the path was looked at, whatever the host answered, the plan
/// opens it with the settings' own access, truncation and link handling;
/// creation is asked for when either kind of creation is set, exclusive
/// creation only when `create_new` is.
pub proof fn lemma_open_passes_settings_on(p: OpenPlan, reply: Reply)
    requires
        open_stage(p) == OpenStage::Probing,
        reply is Status,
    ensures
        open_next(p, reply).0 == OpenStage::Opening,
        open_next(p, reply).1 == Step::<()>::Perform(
            Request::OpenFileWith(
                open_path(p),
                OpenParams {
                    read: open_options(p).read,
                    write: open_options(p).write,
                    append: open_options(p).append,
                    truncate: open_options(p).truncate,
                    create: open_options(p).create || open_options(p).create_new,
                    create_new: open_options(p).create_new,
                    follow_symlinks: open_options(p).follow_symlinks,
                },
            ),
        ),
{
}

} // verus!

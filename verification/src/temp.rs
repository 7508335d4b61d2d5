use vstd::prelude::*;

use std::path::PathBuf;

use crate::error::{Error, IoError, IoErrorKind};
use crate::platform::{clone_path, join_path, path_joined, push_char};
use crate::request::{reply_kind, Reply, ReplyKind, Request, Step};

verus! {

/// How many names a temporary plan tries before it gives up.
pub const MAX_ATTEMPTS: u32 = 128;

/// The prefix of every temporary name.
pub open spec fn temp_prefix() -> Seq<char> {
    "secure-file"@
}

/// The lower-case hexadecimal digit for `d` (taken modulo 16).
pub open spec fn hex_digit(d: u64) -> char {
    let d = d % 16;
    if d < 10 {
        (('0' as u32) + d) as char
    } else {
        (('a' as u32) + d - 10) as char
    }
}

/// The sixteen lower-case hexadecimal digits of `h`, most significant first.
pub open spec fn hex16(h: u64) -> Seq<char> {
    Seq::new(16, |i: int| hex_digit(h >> ((60 - 4 * i) as u64)))
}

/// The temporary name for `prefix` and the number `h`:
/// `.{prefix}-{h as 16 hex digits}.tmp`.
pub open spec fn temp_name_of(prefix: Seq<char>, h: u64) -> Seq<char> {
    seq!['.'] + prefix + seq!['-'] + hex16(h) + ".tmp"@
}

fn hex_char(d: u64) -> (c: char)
    ensures
        c == hex_digit(d),
{
    let d = d % 16;
    match d {
        0 => '0',
        1 => '1',
        2 => '2',
        3 => '3',
        4 => '4',
        5 => '5',
        6 => '6',
        7 => '7',
        8 => '8',
        9 => '9',
        10 => 'a',
        11 => 'b',
        12 => 'c',
        13 => 'd',
        14 => 'e',
        _ => 'f',
    }
}

/// The temporary name for `prefix` and the unpredictable number `h`: a
/// hidden name, `.{prefix}-{h as 16 lower-case hex digits}.tmp`.
pub fn temp_name(prefix: &str, h: u64) -> (r: String)
    ensures
        r@ == temp_name_of(prefix@, h),
{
    let mut s = String::from_str(".");
    s.append(prefix);
    push_char(&mut s, '-');
    proof {
        reveal_strlit(".");
    }
    let ghost base = s@;
    assert(base == seq!['.'] + prefix@ + seq!['-']);
    let mut i: u64 = 0;
    while i < 16
        invariant
            i <= 16,
            s@ == base + hex16(h).take(i as int),
        decreases 16 - i,
    {
        let c = hex_char(h >> (60 - 4 * i));
        push_char(&mut s, c);
        assert(hex16(h).take(i + 1) =~= hex16(h).take(i as int).push(c));
        i = i + 1;
    }
    assert(hex16(h).take(16) =~= hex16(h));
    s.append(".tmp");
    s
}

/// Which kind of temporary entry a plan creates.
#[derive(Debug, Clone, Copy, PartialEq, Eq, Structural)]
pub enum TempKind {
    File,
    Dir,
}

/// Where a temporary plan stands.
#[derive(Debug, Clone, Copy, PartialEq, Eq, Structural)]
pub enum TempStage {
    Ready,
    Drawing,
    Creating,
    Done,
}

/// The steps that create a temporary file or directory with an
/// unpredictable name inside a directory: draw a number, create the entry
/// under the name made from it, and draw again while the name exists
/// already, at most [`MAX_ATTEMPTS`] times.
#[derive(Debug)]
pub struct TempPlan {
    kind: TempKind,
    dir: PathBuf,
    attempts: u32,
    stage: TempStage,
    candidate: Option<PathBuf>,
}

/// What the plan creates.
pub closed spec fn temp_kind(p: TempPlan) -> TempKind {
    p.kind
}

/// The directory that the plan creates the entry in.
pub closed spec fn temp_dir(p: TempPlan) -> PathBuf {
    p.dir
}

/// How many names existed already.
pub closed spec fn temp_attempts(p: TempPlan) -> u32 {
    p.attempts
}

/// Where the plan stands.
pub closed spec fn temp_stage(p: TempPlan) -> TempStage {
    p.stage
}

/// The path that the plan tries to create.
pub closed spec fn temp_candidate(p: TempPlan) -> Option<PathBuf> {
    p.candidate
}

/// Whether the plan's counters are in range, and it knows what it creates
/// while it waits for the creation.
pub open spec fn temp_well_formed(p: TempPlan) -> bool {
    &&& temp_attempts(p) < MAX_ATTEMPTS
    &&& temp_stage(p) == TempStage::Creating ==> temp_candidate(p) is Some
}

/// The reply that a plan in `stage` waits for.
pub open spec fn temp_awaits(stage: TempStage) -> Option<ReplyKind> {
    match stage {
        TempStage::Drawing => Some(ReplyKind::Random),
        TempStage::Creating => Some(ReplyKind::Status),
        _ => None,
    }
}

/// The request that creates `path` as the plan's kind of entry.
pub open spec fn create_request(kind: TempKind, path: PathBuf) -> Request {
    match kind {
        TempKind::File => Request::CreateFile(path),
        TempKind::Dir => Request::CreateDir(path),
    }
}

/// The text of the error when every name existed already.
pub open spec fn exhausted_message(kind: TempKind) -> Seq<char> {
    match kind {
        TempKind::File => "could not create a unique temporary file"@,
        TempKind::Dir => "could not create a unique temporary directory"@,
    }
}

/// How the plan moves on after `reply`, from `old` to `new`, saying `r`.
///
/// After a number is drawn the plan asks to create the entry named
/// [`temp_name`] for it inside the directory. A creation that succeeds ends
/// the plan with the created path; "already exists" makes it draw again,
/// unless that was the last attempt, which ends it with an `Io` error of
/// kind `AlreadyExists`; any other error ends it with that error.
pub open spec fn temp_resumed(old: TempPlan, new: TempPlan, reply: Reply, r: Step<PathBuf>) -> bool {
    match reply {
        Reply::Random(h) => {
            &&& temp_stage(new) == TempStage::Creating
            &&& temp_attempts(new) == temp_attempts(old)
            &&& temp_candidate(new) == Some(
                path_joined(temp_dir(old), temp_name_of(temp_prefix(), h)),
            )
            &&& r == Step::<PathBuf>::Perform(
                create_request(temp_kind(old), temp_candidate(new)->0),
            )
        },
        Reply::Status(Ok(_)) => {
            &&& temp_stage(new) == TempStage::Done
            &&& r == Step::<PathBuf>::Finish(Ok(temp_candidate(old)->0))
        },
        Reply::Status(Err(e)) => if e is AlreadyExists && temp_attempts(old) + 1
            < MAX_ATTEMPTS {
            &&& temp_stage(new) == TempStage::Drawing
            &&& temp_attempts(new) == temp_attempts(old) + 1
            &&& r == Step::<PathBuf>::Perform(Request::DrawRandom)
        } else if e is AlreadyExists {
            &&& temp_stage(new) == TempStage::Done
            &&& r matches Step::Finish(Err(Error::Io(io)))
            &&& io.kind == IoErrorKind::AlreadyExists
            &&& io.code is None
            &&& io.message@ == exhausted_message(temp_kind(old))
        } else {
            &&& temp_stage(new) == TempStage::Done
            &&& r == Step::<PathBuf>::Finish(Err(e))
        },
        _ => temp_stage(new) == TempStage::Done,
    }
}

impl TempPlan {
    /// The plan that creates a temporary entry of `kind` inside `dir`.
    pub fn new(kind: TempKind, dir: PathBuf) -> (r: TempPlan)
        ensures
            temp_kind(r) == kind,
            temp_dir(r) == dir,
            temp_attempts(r) == 0,
            temp_stage(r) == TempStage::Ready,
            temp_candidate(r) is None,
    {
        TempPlan { kind, dir, attempts: 0, stage: TempStage::Ready, candidate: None }
    }

    /// The first step: draw a number for the first name.
    pub fn start(&mut self) -> (r: Step<PathBuf>)
        requires
            temp_stage(*old(self)) == TempStage::Ready,
            temp_well_formed(*old(self)),
        ensures
            temp_kind(*final(self)) == temp_kind(*old(self)),
            temp_dir(*final(self)) == temp_dir(*old(self)),
            temp_attempts(*final(self)) == temp_attempts(*old(self)),
            temp_stage(*final(self)) == TempStage::Drawing,
            temp_well_formed(*final(self)),
            r == Step::<PathBuf>::Perform(Request::DrawRandom),
    {
        self.stage = TempStage::Drawing;
        Step::Perform(Request::DrawRandom)
    }

    /// The step that follows the host's reply to the last request.
    ///
    /// After a number is drawn the plan asks to create the entry named
    /// [`temp_name`] for it inside the directory. A creation that succeeds
    /// ends the plan with the created path; "already exists" makes it draw
    /// again, unless that was the last attempt, which ends it with an `Io`
    /// error of kind `AlreadyExists`; any other error ends it with that error.
    pub fn resume(&mut self, reply: Reply) -> (r: Step<PathBuf>)
        requires
            temp_awaits(temp_stage(*old(self))) == Some(reply_kind(reply)),
            temp_well_formed(*old(self)),
        ensures
            temp_kind(*final(self)) == temp_kind(*old(self)),
            temp_dir(*final(self)) == temp_dir(*old(self)),
            temp_well_formed(*final(self)) || temp_stage(*final(self)) == TempStage::Done,
            temp_resumed(*old(self), *final(self), reply, r),
    {
        match reply {
            Reply::Random(h) => {
                let name = temp_name("secure-file", h);
                let path = join_path(&self.dir, name.as_str());
                let request = match self.kind {
                    TempKind::File => Request::CreateFile(clone_path(&path)),
                    TempKind::Dir => Request::CreateDir(clone_path(&path)),
                };
                self.candidate = Some(path);
                self.stage = TempStage::Creating;
                Step::Perform(request)
            },
            Reply::Status(Ok(())) => {
                self.stage = TempStage::Done;
                let path = self.candidate.take().unwrap();
                Step::Finish(Ok(path))
            },
            Reply::Status(Err(e)) => {
                if matches!(e, Error::AlreadyExists) {
                    if self.attempts + 1 < MAX_ATTEMPTS {
                        self.attempts = self.attempts + 1;
                        self.stage = TempStage::Drawing;
                        Step::Perform(Request::DrawRandom)
                    } else {
                        self.stage = TempStage::Done;
                        let message = match self.kind {
                            TempKind::File => "could not create a unique temporary file",
                            TempKind::Dir => "could not create a unique temporary directory",
                        };
                        Step::Finish(
                            Err(Error::Io(IoError::new(IoErrorKind::AlreadyExists, message))),
                        )
                    }
                } else {
                    self.stage = TempStage::Done;
                    Step::Finish(Err(e))
                }
            },
            _ => {
                self.stage = TempStage::Done;
                Step::Finish(Err(Error::InvalidInput))
            },
        }
    }
}

/// A temporary directory that only the current user can access.
///
/// The directory is created with owner-only permissions. Its owner removes
/// it when the value is dropped, unless it is kept with
/// [`SecureTempDir::keep`].
#[derive(Debug)]
pub struct SecureTempDir {
    path: PathBuf,
    delete_on_drop: bool,
}

impl View for SecureTempDir {
    type V = (PathBuf, bool);

    /// The directory's path, and whether it is to be removed on drop.
    closed spec fn view(&self) -> (PathBuf, bool) {
        (self.path, self.delete_on_drop)
    }
}

/// The steps that lead to a [`SecureTempDir`]: a [`TempPlan`] for a
/// directory, whose created path becomes a temporary directory that is
/// removed on drop.
#[derive(Debug)]
pub struct TempDirPlan {
    inner: TempPlan,
}

/// The directory plan's underlying plan.
pub closed spec fn temp_dir_inner(p: TempDirPlan) -> TempPlan {
    p.inner
}

/// What the directory plan reports for a step of its underlying plan.
pub open spec fn temp_dir_step(s: Step<PathBuf>, r: Step<SecureTempDir>) -> bool {
    match s {
        Step::Perform(q) => r == Step::<SecureTempDir>::Perform(q),
        Step::Finish(Err(e)) => r == Step::<SecureTempDir>::Finish(Err(e)),
        Step::Finish(Ok(path)) => r matches Step::Finish(Ok(d)) && d@ == (path, true),
    }
}

impl TempDirPlan {
    fn lift(s: Step<PathBuf>) -> (r: Step<SecureTempDir>)
        ensures
            temp_dir_step(s, r),
    {
        match s {
            Step::Perform(q) => Step::Perform(q),
            Step::Finish(Err(e)) => Step::Finish(Err(e)),
            Step::Finish(Ok(path)) => Step::Finish(Ok(SecureTempDir { path, delete_on_drop: true })),
        }
    }

    /// The first step: draw a number for the first name.
    pub fn start(&mut self) -> (r: Step<SecureTempDir>)
        requires
            temp_stage(temp_dir_inner(*old(self))) == TempStage::Ready,
            temp_well_formed(temp_dir_inner(*old(self))),
        ensures
            temp_kind(temp_dir_inner(*final(self))) == temp_kind(temp_dir_inner(*old(self))),
            temp_dir(temp_dir_inner(*final(self))) == temp_dir(temp_dir_inner(*old(self))),
            temp_attempts(temp_dir_inner(*final(self))) == temp_attempts(
                temp_dir_inner(*old(self)),
            ),
            temp_stage(temp_dir_inner(*final(self))) == TempStage::Drawing,
            temp_well_formed(temp_dir_inner(*final(self))),
            r == Step::<SecureTempDir>::Perform(Request::DrawRandom),
    {
        TempDirPlan::lift(self.inner.start())
    }

    /// The step that follows the host's reply to the last request; see
    /// [`TempPlan::resume`].
    pub fn resume(&mut self, reply: Reply) -> (r: Step<SecureTempDir>)
        requires
            temp_awaits(temp_stage(temp_dir_inner(*old(self)))) == Some(reply_kind(reply)),
            temp_well_formed(temp_dir_inner(*old(self))),
        ensures
            temp_kind(temp_dir_inner(*final(self))) == temp_kind(temp_dir_inner(*old(self))),
            temp_dir(temp_dir_inner(*final(self))) == temp_dir(temp_dir_inner(*old(self))),
            temp_well_formed(temp_dir_inner(*final(self))) || temp_stage(
                temp_dir_inner(*final(self)),
            ) == TempStage::Done,
            exists|s: Step<PathBuf>|
                temp_resumed(temp_dir_inner(*old(self)), temp_dir_inner(*final(self)), reply, s)
                    && temp_dir_step(s, r),
    {
        let s = self.inner.resume(reply);
        TempDirPlan::lift(s)
    }
}

impl SecureTempDir {
    /// Creates a temporary directory inside `dir`.
    pub fn new_in(dir: PathBuf) -> (r: TempDirPlan)
        ensures
            temp_kind(temp_dir_inner(r)) == TempKind::Dir,
            temp_dir(temp_dir_inner(r)) == dir,
            temp_attempts(temp_dir_inner(r)) == 0,
            temp_stage(temp_dir_inner(r)) == TempStage::Ready,
    {
        TempDirPlan { inner: TempPlan::new(TempKind::Dir, dir) }
    }

    /// Returns the path of this temporary directory.
    pub fn path(&self) -> (r: &PathBuf)
        ensures
            *r == self@.0,
    {
        &self.path
    }

    /// Whether the directory is still to be removed on drop.
    pub fn delete_on_drop(&self) -> (r: bool)
        ensures
            r == self@.1,
    {
        self.delete_on_drop
    }

    /// Prevents the directory from being removed on drop and returns its path.
    pub fn keep(self) -> (r: PathBuf)
        ensures
            r == self@.0,
    {
        self.path
    }
}

/// The digit of `d` determines `d` modulo 16.
proof fn lemma_hex_digit_injective(x: u64, y: u64)
    requires
        hex_digit(x) == hex_digit(y),
    ensures
        x % 16 == y % 16,
{
    let dx = x % 16;
    let dy = y % 16;
    if dx < 10 && dy < 10 {
        assert((('0' as u32) + dx) as char as u32 == ('0' as u32) + dx);
        assert((('0' as u32) + dy) as char as u32 == ('0' as u32) + dy);
    } else if dx >= 10 && dy >= 10 {
        assert((('a' as u32) + dx - 10) as char as u32 == ('a' as u32) + dx - 10);
        assert((('a' as u32) + dy - 10) as char as u32 == ('a' as u32) + dy - 10);
    } else if dx < 10 {
        assert((('0' as u32) + dx) as char as u32 == ('0' as u32) + dx);
        assert((('a' as u32) + dy - 10) as char as u32 == ('a' as u32) + dy - 10);
    } else {
        assert((('a' as u32) + dx - 10) as char as u32 == ('a' as u32) + dx - 10);
        assert((('0' as u32) + dy) as char as u32 == ('0' as u32) + dy);
    }
}

/// Law: different numbers give different temporary names, whatever the
/// prefix, so two creations only race for one name when the host draws the
/// same number twice.
pub proof fn lemma_temp_names_distinct(prefix: Seq<char>, a: u64, b: u64)
    requires
        a != b,
    ensures
        temp_name_of(prefix, a) != temp_name_of(prefix, b),
{
    let head = seq!['.'] + prefix + seq!['-'];
    let na = temp_name_of(prefix, a);
    let nb = temp_name_of(prefix, b);
    if na == nb {
        assert(na.subrange(head.len() as int, head.len() + 16int) =~= hex16(a));
        assert(nb.subrange(head.len() as int, head.len() + 16int) =~= hex16(b));
        assert(hex16(a)[0] == hex16(b)[0]);
        lemma_hex_digit_injective(a >> 60u64, b >> 60u64);
        assert(hex16(a)[1] == hex16(b)[1]);
        lemma_hex_digit_injective(a >> 56u64, b >> 56u64);
        assert(hex16(a)[2] == hex16(b)[2]);
        lemma_hex_digit_injective(a >> 52u64, b >> 52u64);
        assert(hex16(a)[3] == hex16(b)[3]);
        lemma_hex_digit_injective(a >> 48u64, b >> 48u64);
        assert(hex16(a)[4] == hex16(b)[4]);
        lemma_hex_digit_injective(a >> 44u64, b >> 44u64);
        assert(hex16(a)[5] == hex16(b)[5]);
        lemma_hex_digit_injective(a >> 40u64, b >> 40u64);
        assert(hex16(a)[6] == hex16(b)[6]);
        lemma_hex_digit_injective(a >> 36u64, b >> 36u64);
        assert(hex16(a)[7] == hex16(b)[7]);
        lemma_hex_digit_injective(a >> 32u64, b >> 32u64);
        assert(hex16(a)[8] == hex16(b)[8]);
        lemma_hex_digit_injective(a >> 28u64, b >> 28u64);
        assert(hex16(a)[9] == hex16(b)[9]);
        lemma_hex_digit_injective(a >> 24u64, b >> 24u64);
        assert(hex16(a)[10] == hex16(b)[10]);
        lemma_hex_digit_injective(a >> 20u64, b >> 20u64);
        assert(hex16(a)[11] == hex16(b)[11]);
        lemma_hex_digit_injective(a >> 16u64, b >> 16u64);
        assert(hex16(a)[12] == hex16(b)[12]);
        lemma_hex_digit_injective(a >> 12u64, b >> 12u64);
        assert(hex16(a)[13] == hex16(b)[13]);
        lemma_hex_digit_injective(a >> 8u64, b >> 8u64);
        assert(hex16(a)[14] == hex16(b)[14]);
        lemma_hex_digit_injective(a >> 4u64, b >> 4u64);
        assert(hex16(a)[15] == hex16(b)[15]);
        lemma_hex_digit_injective(a >> 0u64, b >> 0u64);
        assert((a >> 60u64) % 16 == (b >> 60u64) % 16 && (a >> 56u64) % 16 == (b >> 56u64) % 16 && (a >> 52u64) % 16 == (b >> 52u64) % 16 && (a >> 48u64) % 16 == (b >> 48u64) % 16 && (a >> 44u64) % 16 == (b >> 44u64) % 16 && (a >> 40u64) % 16 == (b >> 40u64) % 16 && (a >> 36u64) % 16 == (b >> 36u64) % 16 && (a >> 32u64) % 16 == (b >> 32u64) % 16 && (a >> 28u64) % 16 == (b >> 28u64) % 16 && (a >> 24u64) % 16 == (b >> 24u64) % 16 && (a >> 20u64) % 16 == (b >> 20u64) % 16 && (a >> 16u64) % 16 == (b >> 16u64) % 16 && (a >> 12u64) % 16 == (b >> 12u64) % 16 && (a >> 8u64) % 16 == (b >> 8u64) % 16 && (a >> 4u64) % 16 == (b >> 4u64) % 16 && (a >> 0u64) % 16 == (b >> 0u64) % 16 ==> a == b) by (bit_vector);
    }
}

/// Law: the entry a temporary plan asks to create after drawing `h` is the
/// name made from `h` inside the plan's directory; two drawings of
/// different numbers in one directory name different entries of it.
pub proof fn lemma_temp_candidates_named(
    old1: TempPlan,
    new1: TempPlan,
    r1: Step<PathBuf>,
    a: u64,
    old2: TempPlan,
    new2: TempPlan,
    r2: Step<PathBuf>,
    b: u64,
)
    requires
        temp_resumed(old1, new1, Reply::Random(a), r1),
        temp_resumed(old2, new2, Reply::Random(b), r2),
        temp_dir(old1) == temp_dir(old2),
        a != b,
    ensures
        temp_candidate(new1) == Some(path_joined(temp_dir(old1), temp_name_of(temp_prefix(), a))),
        temp_candidate(new2) == Some(path_joined(temp_dir(old1), temp_name_of(temp_prefix(), b))),
        temp_name_of(temp_prefix(), a) != temp_name_of(temp_prefix(), b),
{
    lemma_temp_names_distinct(temp_prefix(), a, b);
}

/// Law: a temporary plan draws a new name only after the host reported that
/// the last name existed already, and each such retry counts one attempt;
/// since the count stays below [`MAX_ATTEMPTS`] while the plan goes on, at
/// most that many names are ever tried.
pub proof fn lemma_temp_retries_only_on_exists(
    old: TempPlan,
    new: TempPlan,
    reply: Reply,
    r: Step<PathBuf>,
)
    requires
        temp_well_formed(old),
        temp_resumed(old, new, reply, r),
        reply is Status,
        r == Step::<PathBuf>::Perform(Request::DrawRandom),
    ensures
        reply matches Reply::Status(Err(Error::AlreadyExists)),
        temp_attempts(new) == temp_attempts(old) + 1,
        temp_attempts(new) < MAX_ATTEMPTS,
{
}

/// Law: an error other than "already exists" ends a temporary plan at once,
/// with that same error.
pub proof fn lemma_temp_other_errors_end(old: TempPlan, new: TempPlan, e: Error, r: Step<PathBuf>)
    requires
        temp_resumed(old, new, Reply::Status(Err(e)), r),
        !(e is AlreadyExists),
    ensures
        r == Step::<PathBuf>::Finish(Err(e)),
        temp_stage(new) == TempStage::Done,
{
}

/// Law: a temporary name is hidden and has a fixed shape: a dot, the
/// prefix, a dash, sixteen lower-case hexadecimal digits and `.tmp`; the
/// first digit stands for the top four bits of the number and the last one
/// for the bottom four.
pub proof fn lemma_temp_name_shape(prefix: Seq<char>, h: u64)
    ensures
        temp_name_of(prefix, h).len() == prefix.len() + 22int,
        temp_name_of(prefix, h)[0] == '.',
        temp_name_of(prefix, h).subrange(1, prefix.len() + 1int) == prefix,
        temp_name_of(prefix, h)[prefix.len() + 1int] == '-',
        temp_name_of(prefix, h).subrange(prefix.len() + 18int, prefix.len() + 22int) == ".tmp"@,
        forall|i: int|
            prefix.len() + 2int <= i < prefix.len() + 18int ==> {
                let c = #[trigger] temp_name_of(prefix, h)[i];
                ('0' <= c && c <= '9') || ('a' <= c && c <= 'f')
            },
        temp_name_of(prefix, h)[prefix.len() + 2int] == hex_digit(h >> 60u64),
        temp_name_of(prefix, h)[prefix.len() + 17int] == hex_digit(h),
{
    reveal_strlit(".tmp");
    let n = temp_name_of(prefix, h);
    assert(n.subrange(1, prefix.len() + 1int) =~= prefix);
    assert(n.subrange(prefix.len() + 18int, prefix.len() + 22int) =~= ".tmp"@);
    assert forall|i: int| prefix.len() + 2int <= i < prefix.len() + 18int implies {
        let c = #[trigger] n[i];
        ('0' <= c && c <= '9') || ('a' <= c && c <= 'f')
    } by {
        let d = (h >> ((60 - 4 * (i - prefix.len() - 2)) as u64)) % 16;
        assert(n[i] == hex_digit(h >> ((60 - 4 * (i - prefix.len() - 2)) as u64)));
        if d < 10 {
            assert((('0' as u32) + d) as char as u32 == ('0' as u32) + d);
        } else {
            assert((('a' as u32) + d - 10) as char as u32 == ('a' as u32) + d - 10);
        }
    }
    assert(h >> 0u64 == h) by (bit_vector);
}

} // verus!

use vstd::prelude::*;

verus! {

/// `std::io::Error`, carried opaquely across the boundary to the host.
#[verifier::external_type_specification]
#[verifier::external_body]
pub struct ExIoError(std::io::Error);

/// The classes of operating-system error that the library tells apart.
///
/// `Other` stands for every kind that is none of the four named ones.
#[derive(Debug, Clone, Copy, PartialEq, Eq, Structural)]
pub enum IoErrorKind {
    NotFound,
    PermissionDenied,
    AlreadyExists,
    InvalidInput,
    Other,
}

/// A plain description of an operating-system error: its kind, the raw OS
/// code when there is one, and its message; and the `std::io::Error` it was
/// read from, if any, which is handed back unchanged when it is turned into
/// a `std::io::Error` again.
#[derive(Debug)]
pub struct IoError {
    pub kind: IoErrorKind,
    pub code: Option<i32>,
    pub message: String,
    pub origin: Option<std::io::Error>,
}

/// The error type for `secure-file`.
#[derive(Debug)]
pub enum Error {
    /// A wrapped operating-system error that has no more specific mapping.
    Io(IoError),
    /// The operation was denied by the operating system.
    PermissionDenied,
    /// The file or directory exists but its permissions allow access by
    /// parties other than the owner.
    InsecurePermissions,
    /// A symbolic link (or Windows reparse point) was found where a regular
    /// file or directory was required.
    SymlinkDetected,
    /// The target already exists and exclusive creation was requested.
    AlreadyExists,
    /// The file or directory (or a required environment setting) is missing.
    NotFound,
    /// The request itself is malformed (conflicting options, a bad name).
    InvalidInput,
}

/// A specialized `Result` type for `secure-file`.
pub type Result<T> = core::result::Result<T, Error>;

/// Whether `code` is the platform's "too many levels of symbolic links"
/// error number (`ELOOP`), the code that an `O_NOFOLLOW` open of a link gives.
pub uninterp spec fn is_symlink_loop_code(code: i32) -> bool;

/// Reads `libc::ELOOP`. The constant differs between platforms, so the
/// contract names the comparison with it rather than a number.
#[verifier::external_body]
fn symlink_loop_errno() -> (r: i32)
    ensures
        forall|c: i32| #[trigger] is_symlink_loop_code(c) <==> c == r,
{
    libc::ELOOP
}

/// The raw OS code that `std::io::Error::raw_os_error` reads from `e`.
pub uninterp spec fn io_raw_code(e: std::io::Error) -> Option<i32>;

/// The kind, as the library tells kinds apart, that `std::io::Error::kind`
/// reads from `e`.
pub uninterp spec fn io_error_kind(e: std::io::Error) -> IoErrorKind;

/// The kind, as the library tells kinds apart, that std gives an
/// operating-system error of `code` (it decodes it from the code alone).
pub uninterp spec fn os_error_kind(code: i32) -> IoErrorKind;

/// Calls `std::io::Error::raw_os_error`.
#[verifier::external_body]
fn std_raw_os_error(err: &std::io::Error) -> (r: Option<i32>)
    ensures
        r == io_raw_code(*err),
{
    err.raw_os_error()
}

/// Calls `std::io::Error::kind` and tells the named kinds apart. An error
/// that carries an OS code has the kind std decodes from that code.
#[verifier::external_body]
fn std_error_kind(err: &std::io::Error) -> (r: IoErrorKind)
    ensures
        r == io_error_kind(*err),
        io_raw_code(*err) is Some ==> r == os_error_kind(io_raw_code(*err)->0),
{
    match err.kind() {
        std::io::ErrorKind::NotFound => IoErrorKind::NotFound,
        std::io::ErrorKind::PermissionDenied => IoErrorKind::PermissionDenied,
        std::io::ErrorKind::AlreadyExists => IoErrorKind::AlreadyExists,
        std::io::ErrorKind::InvalidInput => IoErrorKind::InvalidInput,
        _ => IoErrorKind::Other,
    }
}

/// Calls `ToString::to_string` on a `std::io::Error` (its `Display` text).
/// Nothing is stated of the result: the error value is opaque here.
#[verifier::external_body]
fn std_error_text(err: &std::io::Error) -> String {
    err.to_string()
}

/// Calls `std::io::Error::from_raw_os_error`: the error carries `code`
/// and has the kind std decodes from it.
#[verifier::external_body]
fn std_error_from_code(code: i32) -> (r: std::io::Error)
    ensures
        io_raw_code(r) == Some(code),
        io_error_kind(r) == os_error_kind(code),
{
    std::io::Error::from_raw_os_error(code)
}

/// Calls `std::io::Error::new` with the `std::io::ErrorKind` that `kind`
/// names: the error has that kind and carries no OS code. Its text is not
/// stated here.
#[verifier::external_body]
fn std_error_new(kind: IoErrorKind, message: String) -> (r: std::io::Error)
    ensures
        io_error_kind(r) == kind,
        io_raw_code(r) is None,
{
    let kind = match kind {
        IoErrorKind::NotFound => std::io::ErrorKind::NotFound,
        IoErrorKind::PermissionDenied => std::io::ErrorKind::PermissionDenied,
        IoErrorKind::AlreadyExists => std::io::ErrorKind::AlreadyExists,
        IoErrorKind::InvalidInput => std::io::ErrorKind::InvalidInput,
        IoErrorKind::Other => std::io::ErrorKind::Other,
    };
    std::io::Error::new(kind, message)
}

/// The error that the library reports for an operating-system error.
pub open spec fn classify(e: IoError) -> Error {
    if e.code is Some && is_symlink_loop_code(e.code->0) {
        Error::SymlinkDetected
    } else {
        match e.kind {
            IoErrorKind::AlreadyExists => Error::AlreadyExists,
            IoErrorKind::PermissionDenied => Error::PermissionDenied,
            _ => Error::Io(e),
        }
    }
}

/// The kind of operating-system error that stands for each error.
pub open spec fn io_kind_of(e: Error) -> IoErrorKind {
    match e {
        Error::Io(inner) => inner.kind,
        Error::PermissionDenied => IoErrorKind::PermissionDenied,
        Error::InsecurePermissions => IoErrorKind::PermissionDenied,
        Error::SymlinkDetected => IoErrorKind::Other,
        Error::AlreadyExists => IoErrorKind::AlreadyExists,
        Error::NotFound => IoErrorKind::NotFound,
        Error::InvalidInput => IoErrorKind::InvalidInput,
    }
}

/// Whether `d` describes `e` as an operating-system error: `Io` errors by
/// their own value, every other error by its kind and text, without code.
pub open spec fn describes(d: IoError, e: Error) -> bool {
    &&& d.kind == io_kind_of(e)
    &&& d.message@ == io_message_of(e)
    &&& e is Io ==> d == e->Io_0
    &&& !(e is Io) ==> d.code is None && d.origin is None
}

/// The text that an error carries as an operating-system error: its own
/// text, except that "already exists" is said without the subject.
pub open spec fn io_message_of(e: Error) -> Seq<char> {
    match e {
        Error::AlreadyExists => "already exists"@,
        _ => message_of(e),
    }
}

/// Whether the `std::io::Error` `r` is the one that `d` describes: the error
/// it was read from, when there is one, else one built from its parts.
pub open spec fn std_describes(r: std::io::Error, d: IoError) -> bool {
    if d.origin is Some {
        r == d.origin->0
    } else {
        std_built(r, d)
    }
}

/// Whether the `std::io::Error` `r` is built from `d`'s parts: it carries
/// `d`'s code, and has the kind std decodes from that code, or `d`'s kind
/// when there is no code.
pub open spec fn std_built(r: std::io::Error, d: IoError) -> bool {
    &&& io_raw_code(r) == d.code
    &&& d.code is Some ==> io_error_kind(r) == os_error_kind(d.code->0)
    &&& d.code is None ==> io_error_kind(r) == d.kind
}

/// Whether `r` is the library's error for the `std::io::Error` `e`: as
/// [`classify`] says of `e`'s kind and code (the text aside). An error that
/// carries an OS code has the kind std decodes from it.
pub open spec fn error_from_std(r: Error, e: std::io::Error) -> bool {
    let k = io_error_kind(e);
    let c = io_raw_code(e);
    let looped = c is Some && is_symlink_loop_code(c->0);
    &&& c is Some ==> k == os_error_kind(c->0)
    &&& looped ==> r == Error::SymlinkDetected
    &&& !looped && k == IoErrorKind::AlreadyExists ==> r == Error::AlreadyExists
    &&& !looped && k == IoErrorKind::PermissionDenied ==> r == Error::PermissionDenied
    &&& !looped && k != IoErrorKind::AlreadyExists && k != IoErrorKind::PermissionDenied ==> (r
        is Io && r->Io_0.kind == k && r->Io_0.code == c && r->Io_0.origin == Some(e))
}

/// Whether the `std::io::Error` `r` stands for the library's error `e`: an
/// `Io` error as its description says, any other with the kind of
/// [`io_kind_of`] and no OS code.
pub open spec fn std_from_error(r: std::io::Error, e: Error) -> bool {
    if e is Io {
        std_describes(r, e->Io_0)
    } else {
        io_raw_code(r) is None && io_error_kind(r) == io_kind_of(e)
    }
}

/// The human-readable text of each error.
pub open spec fn message_of(e: Error) -> Seq<char> {
    match e {
        Error::Io(inner) => inner.message@,
        Error::PermissionDenied => "permission denied"@,
        Error::InsecurePermissions => "file or directory is accessible by other users"@,
        Error::SymlinkDetected => "symbolic link detected"@,
        Error::AlreadyExists => "file or directory already exists"@,
        Error::NotFound => "file or directory not found"@,
        Error::InvalidInput => "invalid input"@,
    }
}

impl IoError {
    /// An error of `kind` with the given message and no OS code.
    pub fn new(kind: IoErrorKind, message: &str) -> (r: IoError)
        ensures
            r.kind == kind,
            r.code is None,
            r.origin is None,
            r.message@ == message@,
    {
        IoError { kind, code: None, message: String::from_str(message), origin: None }
    }

    /// An error of kind `Other` with the given message.
    pub fn other(message: &str) -> (r: IoError)
        ensures
            r.kind == IoErrorKind::Other,
            r.code is None,
            r.origin is None,
            r.message@ == message@,
    {
        IoError::new(IoErrorKind::Other, message)
    }

    /// Reads the kind, OS code and message of a `std::io::Error`, and keeps
    /// the error itself. (Its text, which for an OS error depends on the
    /// locale, is not stated.)
    pub fn from_std(err: std::io::Error) -> (r: IoError)
        ensures
            r.kind == io_error_kind(err),
            r.code == io_raw_code(err),
            r.code is Some ==> r.kind == os_error_kind(r.code->0),
            r.origin == Some(err),
    {
        let kind = std_error_kind(&err);
        let code = std_raw_os_error(&err);
        let message = std_error_text(&err);
        IoError { kind, code, message, origin: Some(err) }
    }

    /// Gives the `std::io::Error` that this value describes: the one it was
    /// read from, unchanged, when there is one; else the OS error for its
    /// code when there is one, else one of its kind and message.
    pub fn into_std(self) -> (r: std::io::Error)
        ensures
            std_describes(r, self),
    {
        match self.origin {
            Some(err) => err,
            None => match self.code {
                Some(code) => std_error_from_code(code),
                None => std_error_new(self.kind, self.message),
            },
        }
    }
}

impl Error {
    /// Maps an operating-system error to the library's error: a symbolic-link
    /// loop becomes `SymlinkDetected`, "already exists" and "permission
    /// denied" become their own variants, and anything else stays `Io`.
    pub fn from_io_error(e: IoError) -> (r: Error)
        ensures
            r == classify(e),
    {
        let is_loop = match e.code {
            Some(code) => code == symlink_loop_errno(),
            None => false,
        };
        if is_loop {
            Error::SymlinkDetected
        } else {
            match e.kind {
                IoErrorKind::AlreadyExists => Error::AlreadyExists,
                IoErrorKind::PermissionDenied => Error::PermissionDenied,
                _ => Error::Io(e),
            }
        }
    }

    /// Describes this error as an operating-system error. `Io` errors are
    /// handed back unchanged; every other variant gets its kind and its text.
    pub fn into_io_error(self) -> (r: IoError)
        ensures
            describes(r, self),
    {
        match self {
            Error::Io(e) => e,
            Error::PermissionDenied => IoError::new(
                IoErrorKind::PermissionDenied,
                "permission denied",
            ),
            Error::InsecurePermissions => IoError::new(
                IoErrorKind::PermissionDenied,
                "file or directory is accessible by other users",
            ),
            Error::SymlinkDetected => IoError::new(IoErrorKind::Other, "symbolic link detected"),
            Error::AlreadyExists => IoError::new(IoErrorKind::AlreadyExists, "already exists"),
            Error::NotFound => IoError::new(IoErrorKind::NotFound, "file or directory not found"),
            Error::InvalidInput => IoError::new(IoErrorKind::InvalidInput, "invalid input"),
        }
    }

    /// The kind of operating-system error that this error stands for: an
    /// `Io` error's own kind, and for every other variant the kind it has
    /// when it is turned into a `std::io::Error`.
    pub fn kind(&self) -> (r: IoErrorKind)
        ensures
            r == io_kind_of(*self),
    {
        match self {
            Error::Io(e) => e.kind,
            Error::PermissionDenied => IoErrorKind::PermissionDenied,
            Error::InsecurePermissions => IoErrorKind::PermissionDenied,
            Error::SymlinkDetected => IoErrorKind::Other,
            Error::AlreadyExists => IoErrorKind::AlreadyExists,
            Error::NotFound => IoErrorKind::NotFound,
            Error::InvalidInput => IoErrorKind::InvalidInput,
        }
    }

    /// The human-readable description of this error.
    pub fn message(&self) -> (r: String)
        ensures
            r@ == message_of(*self),
    {
        match self {
            Error::Io(e) => e.message.clone(),
            Error::PermissionDenied => String::from_str("permission denied"),
            Error::InsecurePermissions => String::from_str(
                "file or directory is accessible by other users",
            ),
            Error::SymlinkDetected => String::from_str("symbolic link detected"),
            Error::AlreadyExists => String::from_str("file or directory already exists"),
            Error::NotFound => String::from_str("file or directory not found"),
            Error::InvalidInput => String::from_str("invalid input"),
        }
    }

    /// The lower-level cause of this error: present for `Io` only.
    pub fn source(&self) -> (r: Option<&IoError>)
        ensures
            r is Some <==> self is Io,
            r is Some ==> *(r->0) == self->Io_0,
    {
        match self {
            Error::Io(e) => Some(e),
            _ => None,
        }
    }
}

// The text of a `std::io::Error` is not stated here (for an OS error it
// depends on the locale), so the trait's own specification is not claimed;
// the `ensures` states the mapping by kind and code.
impl From<std::io::Error> for Error {
    fn from(err: std::io::Error) -> (r: Error)
        ensures
            error_from_std(r, err),
    {
        Error::from_io_error(IoError::from_std(err))
    }
}

impl vstd::std_specs::convert::FromSpecImpl<std::io::Error> for Error {
    open spec fn obeys_from_spec() -> bool {
        false
    }

    open spec fn from_spec(v: std::io::Error) -> Error {
        vstd::pervasive::arbitrary()
    }
}

// The text of a `std::io::Error` is not stated here, so the trait's own
// specification is not claimed; the `ensures` states the kind and code read.
impl From<std::io::Error> for IoError {
    fn from(err: std::io::Error) -> (r: IoError)
        ensures
            r.kind == io_error_kind(err),
            r.code == io_raw_code(err),
            r.origin == Some(err),
    {
        IoError::from_std(err)
    }
}

impl vstd::std_specs::convert::FromSpecImpl<std::io::Error> for IoError {
    open spec fn obeys_from_spec() -> bool {
        false
    }

    open spec fn from_spec(v: std::io::Error) -> IoError {
        vstd::pervasive::arbitrary()
    }
}

// The text of the result is not stated here, so the trait's own
// specification is not claimed; the `ensures` states its kind and code.
impl From<Error> for std::io::Error {
    fn from(err: Error) -> (r: std::io::Error)
        ensures
            std_from_error(r, err),
    {
        err.into_io_error().into_std()
    }
}

impl vstd::std_specs::convert::FromSpecImpl<Error> for std::io::Error {
    open spec fn obeys_from_spec() -> bool {
        false
    }

    open spec fn from_spec(v: Error) -> std::io::Error {
        vstd::pervasive::arbitrary()
    }
}

impl From<IoError> for Error {
    fn from(e: IoError) -> (r: Error)
        ensures
            r == classify(e),
    {
        Error::from_io_error(e)
    }
}

impl vstd::std_specs::convert::FromSpecImpl<IoError> for Error {
    open spec fn obeys_from_spec() -> bool {
        true
    }

    open spec fn from_spec(v: IoError) -> Error {
        classify(v)
    }
}

/// Law: converting an error to an operating-system error and back gives the
/// same error, for every error that has an operating-system counterpart of
/// its own (`Io` errors whose kind and code classify as `Io`,
/// `PermissionDenied` and `AlreadyExists`).
pub proof fn lemma_error_round_trip(e: Error, back: IoError)
    requires
        match e {
            Error::Io(inner) => classify(inner) == e,
            Error::PermissionDenied => true,
            Error::AlreadyExists => true,
            _ => false,
        },
        describes(back, e),
    ensures
        classify(back) == e,
{
}

/// Law: the kind of an operating-system error survives the trip into the
/// library's error and back, unless its code is a symbolic-link loop (which
/// becomes `SymlinkDetected`, kind `Other`).
pub proof fn lemma_io_kind_preserved(e: IoError)
    requires
        !(e.code is Some && is_symlink_loop_code(e.code->0)),
    ensures
        io_kind_of(classify(e)) == e.kind,
{
}

/// Law: the kind of a `std::io::Error` survives the trip into the library's
/// error and back to a `std::io::Error`, unless it carries the
/// symbolic-link loop code (which becomes `SymlinkDetected`, kind `Other`);
/// an error that stays `Io` comes back as the very same error, whatever its
/// kind.
pub proof fn lemma_std_kind_round_trip(e: std::io::Error, mid: Error, back: std::io::Error)
    requires
        !(io_raw_code(e) is Some && is_symlink_loop_code(io_raw_code(e)->0)),
        error_from_std(mid, e),
        std_from_error(back, mid),
    ensures
        io_error_kind(back) == io_error_kind(e),
        mid is Io ==> back == e,
{
}

/// Law: every error but `Io` describes itself with a non-empty text, and an
/// `Io` error with the text of its cause.
pub proof fn lemma_messages_non_empty(e: Error)
    ensures
        !(e is Io) ==> message_of(e).len() > 0,
        e is Io ==> message_of(e) == (e->Io_0).message@,
{
    reveal_strlit("permission denied");
    reveal_strlit("file or directory is accessible by other users");
    reveal_strlit("symbolic link detected");
    reveal_strlit("file or directory already exists");
    reveal_strlit("file or directory not found");
    reveal_strlit("invalid input");
}

} // verus!

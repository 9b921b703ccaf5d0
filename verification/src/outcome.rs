//! Results and errors of the filesystem operations.
//!
//! Every operation ends in an [`Outcome`]: a plain success value, a directory
//! listing, a list of volumes, or a tagged error that keeps the diagnostic
//! text. The conversions at the end of this module turn an outcome into the
//! string-typed form handed across the command boundary.

use vstd::prelude::*;

use crate::host::FileEntry;
use crate::host::FileEntryView;

verus! {

/// What a completed operation reports: a success flag and an optional
/// informational note. The note is only ever set by a move that had to fall
/// back to copy-and-delete.
#[derive(Debug, PartialEq, Eq)]
pub struct OpResult {
    pub ok: bool,
    pub msg: Option<String>,
}

/// Mathematical value of an [`OpResult`].
pub struct OpResultView {
    pub ok: bool,
    pub msg: Option<Seq<char>>,
}

impl View for OpResult {
    type V = OpResultView;

    open spec fn view(&self) -> OpResultView {
        OpResultView { ok: self.ok, msg: self.msg.deep_view() }
    }
}

impl DeepView for OpResult {
    type V = OpResultView;

    open spec fn deep_view(&self) -> OpResultView {
        self@
    }
}

/// The class of a failure.
#[derive(Debug, Clone, Copy, PartialEq, Eq, Structural)]
pub enum ErrorKind {
    /// The entry an operation starts from does not exist.
    NotFound,
    /// The destination exists and overwriting was not requested.
    AlreadyExists,
    /// The source exists but is neither a regular file nor a directory.
    UnsupportedSourceType,
    /// The operation has no implementation on the current platform.
    PlatformUnsupported,
    /// The host reported a failure; the message is the host's own text.
    HostIoFailure,
}

/// A failure: its class and the message shown to the caller.
#[derive(Debug, PartialEq, Eq)]
pub struct OpError {
    pub kind: ErrorKind,
    pub message: String,
}

/// Mathematical value of an [`OpError`].
pub struct OpErrorView {
    pub kind: ErrorKind,
    pub message: Seq<char>,
}

impl View for OpError {
    type V = OpErrorView;

    open spec fn view(&self) -> OpErrorView {
        OpErrorView { kind: self.kind, message: self.message@ }
    }
}

impl DeepView for OpError {
    type V = OpErrorView;

    open spec fn deep_view(&self) -> OpErrorView {
        self@
    }
}

/// How an operation ended.
#[derive(Debug, PartialEq, Eq)]
pub enum Outcome {
    /// The operation succeeded.
    Done(OpResult),
    /// A directory listing, in host enumeration order.
    Entries(Vec<FileEntry>),
    /// The volumes of the machine.
    Drives(Vec<String>),
    /// The operation failed.
    Failed(OpError),
}

/// Mathematical value of an [`Outcome`].
pub enum OutcomeView {
    Done(OpResultView),
    Entries(Seq<FileEntryView>),
    Drives(Seq<Seq<char>>),
    Failed(OpErrorView),
}

impl View for Outcome {
    type V = OutcomeView;

    open spec fn view(&self) -> OutcomeView {
        match self {
            Outcome::Done(r) => OutcomeView::Done(r@),
            Outcome::Entries(v) => OutcomeView::Entries(v.deep_view()),
            Outcome::Drives(v) => OutcomeView::Drives(v.deep_view()),
            Outcome::Failed(e) => OutcomeView::Failed(e@),
        }
    }
}

/// The plain success value: `ok` set, no note.
pub open spec fn plain_success() -> OpResultView {
    OpResultView { ok: true, msg: None }
}

/// Message reported when an outcome of the wrong shape is converted.
pub open spec fn misfit_text() -> Seq<char> {
    "operation ended without a matching result"@
}

/// The string-typed status that `o` stands for: the success value, or the
/// message of the failure.
pub open spec fn status_of(o: OutcomeView) -> Result<OpResultView, Seq<char>> {
    match o {
        OutcomeView::Done(r) => Ok(r),
        OutcomeView::Failed(e) => Err(e.message),
        _ => Err(misfit_text()),
    }
}

/// The listing that `o` stands for, or the message of the failure.
pub open spec fn entries_of(o: OutcomeView) -> Result<Seq<FileEntryView>, Seq<char>> {
    match o {
        OutcomeView::Entries(v) => Ok(v),
        OutcomeView::Failed(e) => Err(e.message),
        _ => Err(misfit_text()),
    }
}

/// The volumes that `o` stands for; anything but a volume list counts as none.
pub open spec fn drives_of(o: OutcomeView) -> Seq<Seq<char>> {
    match o {
        OutcomeView::Drives(v) => v,
        _ => Seq::empty(),
    }
}

/// View of a string-typed status.
pub open spec fn status_view(r: Result<OpResult, String>) -> Result<OpResultView, Seq<char>> {
    match r {
        Ok(v) => Ok(v@),
        Err(m) => Err(m@),
    }
}

/// View of a string-typed listing result.
pub open spec fn entries_view(r: Result<Vec<FileEntry>, String>) -> Result<
    Seq<FileEntryView>,
    Seq<char>,
> {
    match r {
        Ok(v) => Ok(v.deep_view()),
        Err(m) => Err(m@),
    }
}

/// Wraps a failure message as the error of a string-typed status.
pub fn err(e: &str) -> (r: Result<OpResult, String>)
    ensures
        status_view(r) == Err::<OpResultView, Seq<char>>(e@),
{
    broadcast use vstd::string::group_string_axioms;

    Err(e.to_string())
}

impl OpResult {
    /// The plain success value.
    pub fn success() -> (r: OpResult)
        ensures
            r@ == plain_success(),
    {
        OpResult { ok: true, msg: None }
    }

    /// A success that carries an informational note.
    pub fn success_with_note(note: String) -> (r: OpResult)
        ensures
            r@ == (OpResultView { ok: true, msg: Some(note@) }),
    {
        OpResult { ok: true, msg: Some(note) }
    }
}

impl Outcome {
    /// The status handed to the caller of an operation that reports success
    /// or failure only.
    pub fn into_status(self) -> (r: Result<OpResult, String>)
        ensures
            status_view(r) == status_of(self@),
    {
        match self {
            Outcome::Done(v) => Ok(v),
            Outcome::Failed(e) => err(e.message.as_str()),
            _ => err("operation ended without a matching result"),
        }
    }

    /// The listing handed to the caller of a directory listing.
    pub fn into_entries(self) -> (r: Result<Vec<FileEntry>, String>)
        ensures
            entries_view(r) == entries_of(self@),
    {
        broadcast use vstd::string::group_string_axioms;

        match self {
            Outcome::Entries(v) => Ok(v),
            Outcome::Failed(e) => Err(e.message),
            _ => Err("operation ended without a matching result".to_string()),
        }
    }

    /// The volumes handed to the caller of a volume enumeration.
    pub fn into_drives(self) -> (r: Vec<String>)
        ensures
            r.deep_view() == drives_of(self@),
    {
        match self {
            Outcome::Drives(v) => v,
            _ => {
                let none: Vec<String> = Vec::new();
                assert(none.deep_view() =~= Seq::<Seq<char>>::empty());
                none
            },
        }
    }
}

} // verus!

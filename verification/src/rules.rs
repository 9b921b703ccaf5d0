//! The rules of every operation, as a transition function.
//!
//! A job is a small state machine. [`next`] says, for each state and each
//! reply of the host, which state follows and what the host is asked next.
//! The executable [`crate::job::Job`] is proved to follow these rules exactly.

use vstd::prelude::*;

use crate::host::at;
use crate::host::top;
use crate::host::ActionView;
use crate::host::ItemView;
use crate::host::Kind;
use crate::host::LinkKind;
use crate::host::Platform;
use crate::host::ReplyView;
use crate::listing::listed;
use crate::messages::dest_exists;
use crate::messages::dir_missing;
use crate::messages::junction_unsupported;
use crate::messages::mklink_failed;
use crate::messages::moved_note;
use crate::messages::path_missing;
use crate::messages::source_missing;
use crate::messages::target_missing;
use crate::messages::unexpected_reply;
use crate::messages::unsupported_source;
use crate::outcome::plain_success;
use crate::outcome::ErrorKind;
use crate::outcome::OpErrorView;
use crate::outcome::OpResultView;
use crate::outcome::OutcomeView;
use crate::volumes::drive_root;
use crate::volumes::mount_points;

verus! {

/// The operation a job carries out, with its arguments.
pub enum OpView {
    Copy { src: Seq<char>, dst: Seq<char>, overwrite: bool },
    Move { src: Seq<char>, dst: Seq<char>, overwrite: bool },
    Delete { path: Seq<char> },
    HardLink { src: Seq<char>, dst: Seq<char> },
    SetReadonly { path: Seq<char>, readonly: bool },
    Symlink { src: Seq<char>, link: Seq<char>, platform: Platform },
    Junction { target: Seq<char>, link: Seq<char> },
    ListDir { path: Seq<char>, limit: Option<usize> },
    ListDrives,
}

/// Where a job stands: which reply it is waiting for.
pub enum PhaseView {
    /// Copy or move: does the source exist?
    SourceProbe,
    /// Copy or move: does the destination exist?
    DestProbe,
    /// Copy or move: the existing destination is being removed.
    DestClear,
    /// Move: the rename is under way.
    Renaming,
    /// Copy or move: is the source a file or a directory?
    KindProbe,
    /// Copy or move: the single source file is being copied.
    SingleCopy,
    /// Tree copy: the destination directory for these names is being created.
    TreeMkdir(Seq<Seq<char>>),
    /// Tree copy: the source directory for these names is being read.
    TreeList(Seq<Seq<char>>),
    /// Tree copy: one file is being copied.
    TreeFile,
    /// Move: the source is being removed after the copy.
    SourceRemove { dir: bool },
    /// Other operations: does the entry to work on exist?
    TargetProbe,
    /// Other operations: the one effect of the operation is under way.
    Acting,
    /// Junction: the ancestors of the link are being created.
    JunctionParent,
    /// Junction: the junction command is running.
    JunctionLink,
    /// Listing: the directory is being read.
    Listing,
    /// Volumes: the mount table is being read.
    Mounts,
    /// Volumes: the drive with this index (0 for `A`) is being probed.
    DriveScan(u8),
    /// The job has handed out its outcome.
    Finished,
}

/// One pending piece of a tree copy, named by the entry names that lead to it
/// from the source and the destination alike.
pub enum TaskView {
    /// Copy this file.
    File(Seq<Seq<char>>),
    /// Copy this directory and everything below it.
    Dir(Seq<Seq<char>>),
    /// Reading a directory stopped with this message: give up here.
    Fail(Seq<char>),
}

/// The state of a job.
pub struct JobView {
    pub op: OpView,
    pub phase: PhaseView,
    /// Pending work of a tree copy; the last element is done first.
    pub stack: Seq<TaskView>,
    /// The host's message for a failed rename, empty until then.
    pub note: Seq<char>,
    /// The drives found so far by a drive scan.
    pub found: Seq<Seq<char>>,
}

/// A job that has not yet asked for anything.
pub open spec fn fresh(op: OpView) -> JobView {
    JobView {
        op,
        phase: PhaseView::Finished,
        stack: Seq::empty(),
        note: Seq::empty(),
        found: Seq::empty(),
    }
}

/// The job moves to `phase` and asks for `action`.
pub open spec fn ask(job: JobView, phase: PhaseView, action: ActionView) -> (JobView, ActionView) {
    (JobView { phase, ..job }, action)
}

/// The job ends with `outcome`.
pub open spec fn halt(job: JobView, outcome: OutcomeView) -> (JobView, ActionView) {
    (JobView { phase: PhaseView::Finished, ..job }, ActionView::Finish(outcome))
}

/// The job ends with a failure.
pub open spec fn fail(job: JobView, kind: ErrorKind, message: Seq<char>) -> (JobView, ActionView) {
    halt(job, OutcomeView::Failed(OpErrorView { kind, message }))
}

/// The job ends because the host reported a failure.
pub open spec fn broken(job: JobView, message: Seq<char>) -> (JobView, ActionView) {
    fail(job, ErrorKind::HostIoFailure, message)
}

/// The job ends because the reply does not answer what was asked.
pub open spec fn confused(job: JobView) -> (JobView, ActionView) {
    broken(job, unexpected_reply())
}

/// The job ends with the plain success value.
pub open spec fn succeed(job: JobView) -> (JobView, ActionView) {
    halt(job, OutcomeView::Done(plain_success()))
}

/// How a copy starts.
pub open spec fn begin_copy(src: Seq<char>, dst: Seq<char>, overwrite: bool) -> (
    JobView,
    ActionView,
) {
    ask(
        fresh(OpView::Copy { src, dst, overwrite }),
        PhaseView::SourceProbe,
        ActionView::Probe(top(src)),
    )
}

/// How a move starts.
pub open spec fn begin_move(src: Seq<char>, dst: Seq<char>, overwrite: bool) -> (
    JobView,
    ActionView,
) {
    ask(
        fresh(OpView::Move { src, dst, overwrite }),
        PhaseView::SourceProbe,
        ActionView::Probe(top(src)),
    )
}

/// How a delete starts.
pub open spec fn begin_delete(path: Seq<char>) -> (JobView, ActionView) {
    ask(fresh(OpView::Delete { path }), PhaseView::TargetProbe, ActionView::Probe(top(path)))
}

/// How the creation of a hard link starts.
pub open spec fn begin_hardlink(src: Seq<char>, dst: Seq<char>) -> (JobView, ActionView) {
    ask(fresh(OpView::HardLink { src, dst }), PhaseView::TargetProbe, ActionView::Probe(top(src)))
}

/// How a change of the read-only flag starts.
pub open spec fn begin_readonly(path: Seq<char>, readonly: bool) -> (JobView, ActionView) {
    ask(
        fresh(OpView::SetReadonly { path, readonly }),
        PhaseView::TargetProbe,
        ActionView::Probe(top(path)),
    )
}

/// How the creation of a symbolic link starts.
pub open spec fn begin_symlink(src: Seq<char>, link: Seq<char>, platform: Platform) -> (
    JobView,
    ActionView,
) {
    ask(
        fresh(OpView::Symlink { src, link, platform }),
        PhaseView::TargetProbe,
        ActionView::Probe(top(src)),
    )
}

/// How the creation of a directory junction starts: off Windows it ends at
/// once, on Windows the ancestors of the link come first.
pub open spec fn begin_junction(target: Seq<char>, link: Seq<char>, platform: Platform) -> (
    JobView,
    ActionView,
) {
    let job = fresh(OpView::Junction { target, link });
    match platform {
        Platform::Windows => ask(
            job,
            PhaseView::JunctionParent,
            ActionView::CreateParentDirs(top(link)),
        ),
        Platform::Unix => fail(job, ErrorKind::PlatformUnsupported, junction_unsupported()),
    }
}

/// How a directory listing starts.
pub open spec fn begin_list(path: Seq<char>, limit: Option<usize>) -> (JobView, ActionView) {
    ask(
        fresh(OpView::ListDir { path, limit }),
        PhaseView::TargetProbe,
        ActionView::Probe(top(path)),
    )
}

/// How a volume enumeration starts: with the mount table on Unix, with drive
/// `A` on Windows.
pub open spec fn begin_drives(platform: Platform) -> (JobView, ActionView) {
    let job = fresh(OpView::ListDrives);
    match platform {
        Platform::Unix => ask(job, PhaseView::Mounts, ActionView::ReadMounts),
        Platform::Windows => ask(
            job,
            PhaseView::DriveScan(0),
            ActionView::Probe(top(drive_root(0))),
        ),
    }
}

/// After the destination is known to be free: a move tries the rename, a copy
/// looks at what the source is.
pub open spec fn transfer(job: JobView, src: Seq<char>, dst: Seq<char>, moving: bool) -> (
    JobView,
    ActionView,
) {
    if moving {
        ask(job, PhaseView::Renaming, ActionView::Rename { from: top(src), to: top(dst) })
    } else {
        ask(job, PhaseView::KindProbe, ActionView::Probe(top(src)))
    }
}

/// After everything is copied: a copy is done, a move removes the source.
pub open spec fn conclude(job: JobView, src: Seq<char>, moving: bool, dir: bool) -> (
    JobView,
    ActionView,
) {
    if !moving {
        succeed(job)
    } else if dir {
        ask(job, PhaseView::SourceRemove { dir }, ActionView::RemoveDirAll(top(src)))
    } else {
        ask(job, PhaseView::SourceRemove { dir }, ActionView::RemoveFile(top(src)))
    }
}

/// The task for one directory entry found below `rel`.
pub open spec fn task_for(name: Seq<char>, is_dir: bool, rel: Seq<Seq<char>>) -> TaskView {
    if is_dir {
        TaskView::Dir(rel.push(name))
    } else {
        TaskView::File(rel.push(name))
    }
}

/// The pending work after the directory reached through `rel` was read:
/// `stack` with one task for each of `items[j..]` on top of it, the first
/// item topmost. An item that could not be read or typed ends the directory:
/// the items after it are dropped and the failure is reported once the items
/// before it are done.
pub open spec fn unfold(
    stack: Seq<TaskView>,
    items: Seq<ItemView>,
    rel: Seq<Seq<char>>,
    j: int,
) -> Seq<TaskView>
    decreases items.len() - j,
{
    if j < 0 || j >= items.len() {
        stack
    } else {
        match items[j] {
            ItemView::Entry(e) => unfold(stack, items, rel, j + 1).push(
                task_for(e.name, e.is_dir, rel),
            ),
            ItemView::Unreadable(message) => stack.push(TaskView::Fail(message)),
            ItemView::Untyped(message) => stack.push(TaskView::Fail(message)),
        }
    }
}

/// Takes up the next pending task of a tree copy, or concludes when none is
/// left.
pub open spec fn dispatch(job: JobView, src: Seq<char>, dst: Seq<char>, moving: bool) -> (
    JobView,
    ActionView,
) {
    if job.stack.len() == 0 {
        conclude(job, src, moving, true)
    } else {
        let rest = JobView { stack: job.stack.drop_last(), ..job };
        match job.stack.last() {
            TaskView::File(rel) => ask(
                rest,
                PhaseView::TreeFile,
                ActionView::CopyFile { from: at(src, rel), to: at(dst, rel) },
            ),
            TaskView::Dir(rel) => ask(
                rest,
                PhaseView::TreeMkdir(rel),
                ActionView::CreateDirAll(at(dst, rel)),
            ),
            TaskView::Fail(message) => broken(rest, message),
        }
    }
}

/// The rules of copy and move.
pub open spec fn next_transfer(
    job: JobView,
    src: Seq<char>,
    dst: Seq<char>,
    overwrite: bool,
    moving: bool,
    reply: ReplyView,
) -> (JobView, ActionView) {
    match job.phase {
        PhaseView::SourceProbe => match reply {
            ReplyView::Kind(Kind::Missing) => fail(job, ErrorKind::NotFound, source_missing(src)),
            ReplyView::Kind(_) => ask(job, PhaseView::DestProbe, ActionView::Probe(top(dst))),
            _ => confused(job),
        },
        PhaseView::DestProbe => match reply {
            ReplyView::Kind(Kind::Missing) => transfer(job, src, dst, moving),
            ReplyView::Kind(kind) => if !overwrite {
                fail(job, ErrorKind::AlreadyExists, dest_exists(dst, moving))
            } else if kind == Kind::Dir {
                ask(job, PhaseView::DestClear, ActionView::RemoveDirAll(top(dst)))
            } else {
                ask(job, PhaseView::DestClear, ActionView::RemoveFile(top(dst)))
            },
            _ => confused(job),
        },
        PhaseView::DestClear => match reply {
            ReplyView::Done => transfer(job, src, dst, moving),
            ReplyView::Failed(message) => broken(job, message),
            _ => confused(job),
        },
        PhaseView::Renaming => match reply {
            ReplyView::Done => succeed(job),
            ReplyView::Failed(message) => ask(
                JobView { note: message, ..job },
                PhaseView::KindProbe,
                ActionView::Probe(top(src)),
            ),
            _ => confused(job),
        },
        PhaseView::KindProbe => match reply {
            ReplyView::Kind(Kind::File) => ask(
                job,
                PhaseView::SingleCopy,
                ActionView::CopyFile { from: top(src), to: top(dst) },
            ),
            ReplyView::Kind(Kind::Dir) => dispatch(
                JobView { stack: seq![TaskView::Dir(Seq::empty())], ..job },
                src,
                dst,
                moving,
            ),
            ReplyView::Kind(_) => fail(
                job,
                ErrorKind::UnsupportedSourceType,
                unsupported_source(moving, job.note),
            ),
            _ => confused(job),
        },
        PhaseView::SingleCopy => match reply {
            ReplyView::Done => conclude(job, src, moving, false),
            ReplyView::Failed(message) => broken(job, message),
            _ => confused(job),
        },
        PhaseView::TreeMkdir(rel) => match reply {
            ReplyView::Done => ask(
                job,
                PhaseView::TreeList(rel),
                ActionView::ReadDir(at(src, rel)),
            ),
            ReplyView::Failed(message) => broken(job, message),
            _ => confused(job),
        },
        PhaseView::TreeList(rel) => match reply {
            ReplyView::Listing(items) => dispatch(
                JobView { stack: unfold(job.stack, items, rel, 0), ..job },
                src,
                dst,
                moving,
            ),
            ReplyView::Failed(message) => broken(job, message),
            _ => confused(job),
        },
        PhaseView::TreeFile => match reply {
            ReplyView::Done => dispatch(job, src, dst, moving),
            ReplyView::Failed(message) => broken(job, message),
            _ => confused(job),
        },
        PhaseView::SourceRemove { dir } => match reply {
            ReplyView::Done => halt(
                job,
                OutcomeView::Done(OpResultView { ok: true, msg: Some(moved_note(dir, job.note)) }),
            ),
            ReplyView::Failed(message) => broken(job, message),
            _ => confused(job),
        },
        _ => confused(job),
    }
}

/// The one effect of an operation that first checks that its entry exists,
/// given what the probe found there. `None` for operations of another shape.
pub open spec fn effect(op: OpView, kind: Kind) -> Option<ActionView> {
    match op {
        OpView::Delete { path } => Some(
            if kind == Kind::Dir {
                ActionView::RemoveDirAll(top(path))
            } else {
                ActionView::RemoveFile(top(path))
            },
        ),
        OpView::HardLink { src, dst } => Some(ActionView::HardLink { from: top(src), to: top(dst) }),
        OpView::SetReadonly { path, readonly } => Some(
            ActionView::SetReadonly { path: top(path), readonly },
        ),
        OpView::Symlink { src, link, platform } => Some(
            ActionView::Symlink {
                target: top(src),
                link: top(link),
                kind: match platform {
                    Platform::Unix => LinkKind::Any,
                    Platform::Windows => if kind == Kind::Dir {
                        LinkKind::Dir
                    } else {
                        LinkKind::File
                    },
                },
            },
        ),
        _ => None,
    }
}

/// The message for a missing entry of an operation that first checks that its
/// entry exists.
pub open spec fn missing_text(op: OpView) -> Seq<char> {
    match op {
        OpView::Delete { path } => path_missing(path),
        OpView::HardLink { src, dst } => source_missing(src),
        OpView::SetReadonly { path, readonly } => path_missing(path),
        OpView::Symlink { src, link, platform } => target_missing(src),
        _ => unexpected_reply(),
    }
}

/// The rules of delete, hard link, read-only flag and symbolic link: probe,
/// then one effect.
pub open spec fn next_simple(job: JobView, reply: ReplyView) -> (JobView, ActionView) {
    match job.phase {
        PhaseView::TargetProbe => match reply {
            ReplyView::Kind(Kind::Missing) => fail(job, ErrorKind::NotFound, missing_text(job.op)),
            ReplyView::Kind(kind) => match effect(job.op, kind) {
                Some(action) => ask(job, PhaseView::Acting, action),
                None => confused(job),
            },
            _ => confused(job),
        },
        PhaseView::Acting => match reply {
            ReplyView::Done => succeed(job),
            ReplyView::Failed(message) => broken(job, message),
            _ => confused(job),
        },
        _ => confused(job),
    }
}

/// The program that creates a directory junction: the command interpreter.
pub open spec fn junction_program() -> Seq<char> {
    "cmd"@
}

/// The arguments with which the command interpreter creates the junction
/// `link` for `target`: its built-in `mklink /J`, the link before the target.
pub open spec fn junction_args(link: Seq<char>, target: Seq<char>) -> Seq<Seq<char>> {
    seq!["/C"@, "mklink"@, "/J"@, link, target]
}

/// The rules of the directory junction.
pub open spec fn next_junction(job: JobView, target: Seq<char>, link: Seq<char>, reply: ReplyView) -> (
    JobView,
    ActionView,
) {
    match job.phase {
        PhaseView::JunctionParent => match reply {
            ReplyView::Done => ask(
                job,
                PhaseView::JunctionLink,
                ActionView::Run { program: junction_program(), args: junction_args(link, target) },
            ),
            ReplyView::Failed(message) => broken(job, message),
            _ => confused(job),
        },
        PhaseView::JunctionLink => match reply {
            ReplyView::Output { success, stdout, stderr } => if success {
                succeed(job)
            } else {
                broken(job, mklink_failed(stdout, stderr))
            },
            ReplyView::Failed(message) => broken(job, message),
            _ => confused(job),
        },
        _ => confused(job),
    }
}

/// The rules of the directory listing.
pub open spec fn next_list(job: JobView, path: Seq<char>, limit: Option<usize>, reply: ReplyView) -> (
    JobView,
    ActionView,
) {
    match job.phase {
        PhaseView::TargetProbe => match reply {
            ReplyView::Kind(Kind::Missing) => fail(job, ErrorKind::NotFound, dir_missing()),
            ReplyView::Kind(_) => ask(
                job,
                PhaseView::Listing,
                ActionView::ListDir { dir: top(path), limit },
            ),
            _ => confused(job),
        },
        PhaseView::Listing => match reply {
            ReplyView::Listing(items) => match listed(items, limit) {
                Ok(entries) => halt(job, OutcomeView::Entries(entries)),
                Err(message) => broken(job, message),
            },
            ReplyView::Failed(message) => broken(job, message),
            _ => confused(job),
        },
        _ => confused(job),
    }
}

/// The rules of the volume enumeration.
pub open spec fn next_drives(job: JobView, reply: ReplyView) -> (JobView, ActionView) {
    match job.phase {
        PhaseView::Mounts => match reply {
            ReplyView::Text(text) => halt(job, OutcomeView::Drives(mount_points(text))),
            ReplyView::Failed(_) => halt(job, OutcomeView::Drives(Seq::empty())),
            _ => confused(job),
        },
        PhaseView::DriveScan(index) => match reply {
            ReplyView::Kind(kind) => if index > 25 {
                confused(job)
            } else {
                let found = if kind == Kind::Missing {
                    job.found
                } else {
                    job.found.push(drive_root(index))
                };
                if index >= 25 {
                    halt(JobView { found, ..job }, OutcomeView::Drives(found))
                } else {
                    let following = (index + 1) as u8;
                    ask(
                        JobView { found, ..job },
                        PhaseView::DriveScan(following),
                        ActionView::Probe(top(drive_root(following))),
                    )
                }
            },
            _ => confused(job),
        },
        _ => confused(job),
    }
}

/// The transition function: the state and the request that follow when a job
/// in state `job` receives `reply`.
pub open spec fn next(job: JobView, reply: ReplyView) -> (JobView, ActionView) {
    match job.op {
        OpView::Copy { src, dst, overwrite } => next_transfer(job, src, dst, overwrite, false, reply),
        OpView::Move { src, dst, overwrite } => next_transfer(job, src, dst, overwrite, true, reply),
        OpView::Junction { target, link } => next_junction(job, target, link, reply),
        OpView::ListDir { path, limit } => next_list(job, path, limit, reply),
        OpView::ListDrives => next_drives(job, reply),
        _ => next_simple(job, reply),
    }
}

} // verus!

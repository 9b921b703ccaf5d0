//! The operations, as jobs that a driver steps through.
//!
//! Each of the functions [`copy_path`], [`move_path`], [`delete_path`],
//! [`create_hardlink`], [`set_readonly`], [`create_symlink`],
//! [`create_ntfs_junction`], [`list_dir`] and [`list_drives`] starts a job and
//! returns it with the first action for the host. The driver performs the
//! action, hands the reply to [`Job::step`], and goes on until the action is
//! [`Action::Finish`].

use vstd::prelude::*;
use vstd::string::StringExecFns;

use crate::host::top;
use crate::host::Action;
use crate::host::ActionView;
use crate::host::Item;
use crate::host::Kind;
use crate::host::LinkKind;
use crate::host::Loc;
use crate::host::Platform;
use crate::host::Reply;
use crate::listing::collect;
use crate::messages::dest_exists_message;
use crate::messages::dir_missing_message;
use crate::messages::junction_unsupported_message;
use crate::messages::mklink_failed_message;
use crate::messages::moved_note_message;
use crate::messages::path_missing_message;
use crate::messages::source_missing_message;
use crate::messages::target_missing_message;
use crate::messages::unexpected_reply_message;
use crate::messages::unsupported_source_message;
use crate::outcome::ErrorKind;
use crate::outcome::OpError;
use crate::outcome::OpResult;
use crate::outcome::Outcome;
use crate::rules;
use crate::rules::JobView;
use crate::rules::OpView;
use crate::rules::PhaseView;
use crate::rules::TaskView;
use crate::volumes::drive;
use crate::volumes::parse_mounts;

verus! {

/// The operation a job carries out, with its arguments.
#[derive(Debug)]
enum Op {
    Copy { src: String, dst: String, overwrite: bool },
    Move { src: String, dst: String, overwrite: bool },
    Delete { path: String },
    HardLink { src: String, dst: String },
    SetReadonly { path: String, readonly: bool },
    Symlink { src: String, link: String, platform: Platform },
    Junction { target: String, link: String },
    ListDir { path: String, limit: Option<usize> },
    ListDrives,
}

impl View for Op {
    type V = OpView;

    closed spec fn view(&self) -> OpView {
        match self {
            Op::Copy { src, dst, overwrite } => OpView::Copy {
                src: src@,
                dst: dst@,
                overwrite: *overwrite,
            },
            Op::Move { src, dst, overwrite } => OpView::Move {
                src: src@,
                dst: dst@,
                overwrite: *overwrite,
            },
            Op::Delete { path } => OpView::Delete { path: path@ },
            Op::HardLink { src, dst } => OpView::HardLink { src: src@, dst: dst@ },
            Op::SetReadonly { path, readonly } => OpView::SetReadonly {
                path: path@,
                readonly: *readonly,
            },
            Op::Symlink { src, link, platform } => OpView::Symlink {
                src: src@,
                link: link@,
                platform: *platform,
            },
            Op::Junction { target, link } => OpView::Junction { target: target@, link: link@ },
            Op::ListDir { path, limit } => OpView::ListDir { path: path@, limit: *limit },
            Op::ListDrives => OpView::ListDrives,
        }
    }
}

/// Where a job stands: which reply it is waiting for.
#[derive(Debug)]
enum Phase {
    SourceProbe,
    DestProbe,
    DestClear,
    Renaming,
    KindProbe,
    SingleCopy,
    TreeMkdir(Vec<String>),
    TreeList(Vec<String>),
    TreeFile,
    SourceRemove { dir: bool },
    TargetProbe,
    Acting,
    JunctionParent,
    JunctionLink,
    Listing,
    Mounts,
    DriveScan(u8),
    Finished,
}

impl View for Phase {
    type V = PhaseView;

    closed spec fn view(&self) -> PhaseView {
        match self {
            Phase::SourceProbe => PhaseView::SourceProbe,
            Phase::DestProbe => PhaseView::DestProbe,
            Phase::DestClear => PhaseView::DestClear,
            Phase::Renaming => PhaseView::Renaming,
            Phase::KindProbe => PhaseView::KindProbe,
            Phase::SingleCopy => PhaseView::SingleCopy,
            Phase::TreeMkdir(rel) => PhaseView::TreeMkdir(rel.deep_view()),
            Phase::TreeList(rel) => PhaseView::TreeList(rel.deep_view()),
            Phase::TreeFile => PhaseView::TreeFile,
            Phase::SourceRemove { dir } => PhaseView::SourceRemove { dir: *dir },
            Phase::TargetProbe => PhaseView::TargetProbe,
            Phase::Acting => PhaseView::Acting,
            Phase::JunctionParent => PhaseView::JunctionParent,
            Phase::JunctionLink => PhaseView::JunctionLink,
            Phase::Listing => PhaseView::Listing,
            Phase::Mounts => PhaseView::Mounts,
            Phase::DriveScan(index) => PhaseView::DriveScan(*index),
            Phase::Finished => PhaseView::Finished,
        }
    }
}

/// One pending piece of a tree copy.
#[derive(Debug)]
enum Task {
    File(Vec<String>),
    Dir(Vec<String>),
    Fail(String),
}

impl View for Task {
    type V = TaskView;

    closed spec fn view(&self) -> TaskView {
        match self {
            Task::File(rel) => TaskView::File(rel.deep_view()),
            Task::Dir(rel) => TaskView::Dir(rel.deep_view()),
            Task::Fail(message) => TaskView::Fail(message@),
        }
    }
}

impl DeepView for Task {
    type V = TaskView;

    closed spec fn deep_view(&self) -> TaskView {
        self@
    }
}

/// An operation under way.
#[derive(Debug)]
pub struct Job {
    op: Op,
    phase: Phase,
    stack: Vec<Task>,
    note: String,
    found: Vec<String>,
}

impl View for Job {
    type V = JobView;

    closed spec fn view(&self) -> JobView {
        JobView {
            op: self.op@,
            phase: self.phase@,
            stack: self.stack.deep_view(),
            note: self.note@,
            found: self.found.deep_view(),
        }
    }
}

fn fresh(op: Op) -> (r: Job)
    ensures
        r@ == rules::fresh(op@),
{
    let r = Job {
        op,
        phase: Phase::Finished,
        stack: Vec::new(),
        note: String::new(),
        found: Vec::new(),
    };
    assert(r.stack.deep_view() =~= Seq::<TaskView>::empty());
    assert(r.found.deep_view() =~= Seq::<Seq<char>>::empty());
    r
}

fn ask(job: Job, phase: Phase, action: Action) -> (r: (Job, Action))
    ensures
        (r.0@, r.1@) == rules::ask(job@, phase@, action@),
{
    (Job { phase, ..job }, action)
}

fn halt(job: Job, outcome: Outcome) -> (r: (Job, Action))
    ensures
        (r.0@, r.1@) == rules::halt(job@, outcome@),
{
    (Job { phase: Phase::Finished, ..job }, Action::Finish(outcome))
}

fn fail(job: Job, kind: ErrorKind, message: String) -> (r: (Job, Action))
    ensures
        (r.0@, r.1@) == rules::fail(job@, kind, message@),
{
    halt(job, Outcome::Failed(OpError { kind, message }))
}

fn broken(job: Job, message: String) -> (r: (Job, Action))
    ensures
        (r.0@, r.1@) == rules::broken(job@, message@),
{
    fail(job, ErrorKind::HostIoFailure, message)
}

fn confused(job: Job) -> (r: (Job, Action))
    ensures
        (r.0@, r.1@) == rules::confused(job@),
{
    broken(job, unexpected_reply_message())
}

fn succeed(job: Job) -> (r: (Job, Action))
    ensures
        (r.0@, r.1@) == rules::succeed(job@),
{
    halt(job, Outcome::Done(OpResult::success()))
}

/// Starts a copy of `src` to `dst`.
pub fn copy_path(src: String, dst: String, overwrite: bool) -> (r: (Job, Action))
    ensures
        (r.0@, r.1@) == rules::begin_copy(src@, dst@, overwrite),
{
    let first = Action::Probe(Loc::top(&src));
    ask(fresh(Op::Copy { src, dst, overwrite }), Phase::SourceProbe, first)
}

/// Starts a move of `src` to `dst`.
pub fn move_path(src: String, dst: String, overwrite: bool) -> (r: (Job, Action))
    ensures
        (r.0@, r.1@) == rules::begin_move(src@, dst@, overwrite),
{
    let first = Action::Probe(Loc::top(&src));
    ask(fresh(Op::Move { src, dst, overwrite }), Phase::SourceProbe, first)
}

/// Starts the removal of `path`, a file or a whole directory tree.
pub fn delete_path(path: String) -> (r: (Job, Action))
    ensures
        (r.0@, r.1@) == rules::begin_delete(path@),
{
    let first = Action::Probe(Loc::top(&path));
    ask(fresh(Op::Delete { path }), Phase::TargetProbe, first)
}

/// Starts the creation of a hard link at `dst` for `src`.
pub fn create_hardlink(src: String, dst: String) -> (r: (Job, Action))
    ensures
        (r.0@, r.1@) == rules::begin_hardlink(src@, dst@),
{
    let first = Action::Probe(Loc::top(&src));
    ask(fresh(Op::HardLink { src, dst }), Phase::TargetProbe, first)
}

/// Starts setting or clearing the read-only flag of `path`.
pub fn set_readonly(path: String, readonly: bool) -> (r: (Job, Action))
    ensures
        (r.0@, r.1@) == rules::begin_readonly(path@, readonly),
{
    let first = Action::Probe(Loc::top(&path));
    ask(fresh(Op::SetReadonly { path, readonly }), Phase::TargetProbe, first)
}

/// Starts the creation of a symbolic link at `link` that points to `src`.
pub fn create_symlink(src: String, link: String, platform: Platform) -> (r: (Job, Action))
    ensures
        (r.0@, r.1@) == rules::begin_symlink(src@, link@, platform),
{
    let first = Action::Probe(Loc::top(&src));
    ask(fresh(Op::Symlink { src, link, platform }), Phase::TargetProbe, first)
}

/// Starts the creation of a directory junction at `link` for `target`.
pub fn create_ntfs_junction(target: String, link: String, platform: Platform) -> (r: (
    Job,
    Action,
))
    ensures
        (r.0@, r.1@) == rules::begin_junction(target@, link@, platform),
{
    match platform {
        Platform::Windows => {
            let first = Action::CreateParentDirs(Loc::top(&link));
            ask(fresh(Op::Junction { target, link }), Phase::JunctionParent, first)
        },
        Platform::Unix => fail(
            fresh(Op::Junction { target, link }),
            ErrorKind::PlatformUnsupported,
            junction_unsupported_message(),
        ),
    }
}

/// Starts the listing of the directory `path`, truncated to `limit` entries
/// if a limit is given.
pub fn list_dir(path: String, limit: Option<usize>) -> (r: (Job, Action))
    ensures
        (r.0@, r.1@) == rules::begin_list(path@, limit),
{
    let first = Action::Probe(Loc::top(&path));
    ask(fresh(Op::ListDir { path, limit }), Phase::TargetProbe, first)
}

/// Starts the enumeration of the volumes of the machine.
pub fn list_drives(platform: Platform) -> (r: (Job, Action))
    ensures
        (r.0@, r.1@) == rules::begin_drives(platform),
{
    match platform {
        Platform::Unix => ask(fresh(Op::ListDrives), Phase::Mounts, Action::ReadMounts),
        Platform::Windows => {
            let root = drive(0);
            ask(fresh(Op::ListDrives), Phase::DriveScan(0), Action::Probe(Loc::top(&root)))
        },
    }
}

fn transfer(job: Job, src: &String, dst: &String, moving: bool) -> (r: (Job, Action))
    ensures
        (r.0@, r.1@) == rules::transfer(job@, src@, dst@, moving),
{
    if moving {
        ask(job, Phase::Renaming, Action::Rename { from: Loc::top(src), to: Loc::top(dst) })
    } else {
        ask(job, Phase::KindProbe, Action::Probe(Loc::top(src)))
    }
}

fn conclude(job: Job, src: &String, moving: bool, dir: bool) -> (r: (Job, Action))
    ensures
        (r.0@, r.1@) == rules::conclude(job@, src@, moving, dir),
{
    if !moving {
        succeed(job)
    } else if dir {
        ask(job, Phase::SourceRemove { dir }, Action::RemoveDirAll(Loc::top(src)))
    } else {
        ask(job, Phase::SourceRemove { dir }, Action::RemoveFile(Loc::top(src)))
    }
}

fn dispatch(job: Job, src: &String, dst: &String, moving: bool) -> (r: (Job, Action))
    ensures
        (r.0@, r.1@) == rules::dispatch(job@, src@, dst@, moving),
{
    let Job { op, phase, stack, note, found } = job;
    let mut stack = stack;
    let ghost before = stack.deep_view();
    let task = stack.pop();
    assert(before.len() > 0 ==> stack.deep_view() =~= before.drop_last());
    assert(before.len() == 0 ==> stack.deep_view() =~= before);
    let rest = Job { op, phase, stack, note, found };
    match task {
        None => conclude(rest, src, moving, true),
        Some(Task::File(rel)) => {
            let from = Loc::at(src, &rel);
            let to = Loc::at(dst, &rel);
            ask(rest, Phase::TreeFile, Action::CopyFile { from, to })
        },
        Some(Task::Dir(rel)) => {
            let to = Loc::at(dst, &rel);
            ask(rest, Phase::TreeMkdir(rel), Action::CreateDirAll(to))
        },
        Some(Task::Fail(message)) => broken(rest, message),
    }
}

fn is_entry(item: &Item) -> (b: bool)
    ensures
        b == (item@ is Entry),
{
    match item {
        Item::Entry(_) => true,
        _ => false,
    }
}

/// Puts one task for each item of a directory on the stack, the first item
/// topmost.
fn push_children(stack: &mut Vec<Task>, items: &Vec<Item>, rel: &Vec<String>)
    ensures
        final(stack).deep_view() == rules::unfold(
            old(stack).deep_view(),
            items.deep_view(),
            rel.deep_view(),
            0,
        ),
{
    let ghost base = stack.deep_view();
    let ghost its = items.deep_view();
    let ghost names = rel.deep_view();
    let mut k: usize = 0;
    while k < items.len() && is_entry(&items[k])
        invariant
            k <= items.len(),
            its == items.deep_view(),
            forall|j: int| 0 <= j < k ==> its[j] is Entry,
        decreases items.len() - k,
    {
        assert(its[k as int] == items[k as int]@);
        k = k + 1;
    }
    if k < items.len() {
        assert(its[k as int] == items[k as int]@);
        match &items[k] {
            Item::Unreadable(message) => {
                stack.push(Task::Fail(message.clone()));
                assert(stack.deep_view() =~= base.push(TaskView::Fail(message@)));
            },
            Item::Untyped(message) => {
                stack.push(Task::Fail(message.clone()));
                assert(stack.deep_view() =~= base.push(TaskView::Fail(message@)));
            },
            Item::Entry(_) => {},
        }
    }
    let mut i: usize = k;
    while i > 0
        invariant
            i <= k <= items.len(),
            its == items.deep_view(),
            names == rel.deep_view(),
            forall|j: int| 0 <= j < k ==> its[j] is Entry,
            stack.deep_view() == rules::unfold(base, its, names, i as int),
        decreases i,
    {
        i = i - 1;
        assert(its[i as int] == items[i as int]@);
        match &items[i] {
            Item::Entry(e) => {
                let ghost before = stack.deep_view();
                let mut child = rel.clone();
                child.push(e.name.clone());
                assert(child.deep_view() =~= names.push(e.name@));
                if e.is_dir {
                    stack.push(Task::Dir(child));
                } else {
                    stack.push(Task::File(child));
                }
                assert(stack.deep_view() =~= before.push(
                    rules::task_for(e.name@, e.is_dir, names),
                ));
            },
            _ => {},
        }
    }
}

fn step_transfer(
    job: Job,
    src: &String,
    dst: &String,
    overwrite: bool,
    moving: bool,
    reply: Reply,
) -> (r: (Job, Action))
    ensures
        (r.0@, r.1@) == rules::next_transfer(job@, src@, dst@, overwrite, moving, reply@),
{
    let Job { op, phase, stack, note, found } = job;
    match phase {
        Phase::SourceProbe => {
            let job = Job { op, phase: Phase::Finished, stack, note, found };
            match reply {
                Reply::Kind(Kind::Missing) => fail(
                    job,
                    ErrorKind::NotFound,
                    source_missing_message(src),
                ),
                Reply::Kind(_) => ask(job, Phase::DestProbe, Action::Probe(Loc::top(dst))),
                _ => confused(job),
            }
        },
        Phase::DestProbe => {
            let job = Job { op, phase: Phase::Finished, stack, note, found };
            match reply {
                Reply::Kind(Kind::Missing) => transfer(job, src, dst, moving),
                Reply::Kind(kind) => {
                    if !overwrite {
                        fail(job, ErrorKind::AlreadyExists, dest_exists_message(dst, moving))
                    } else {
                        match kind {
                            Kind::Dir => ask(
                                job,
                                Phase::DestClear,
                                Action::RemoveDirAll(Loc::top(dst)),
                            ),
                            _ => ask(job, Phase::DestClear, Action::RemoveFile(Loc::top(dst))),
                        }
                    }
                },
                _ => confused(job),
            }
        },
        Phase::DestClear => {
            let job = Job { op, phase: Phase::Finished, stack, note, found };
            match reply {
                Reply::Done => transfer(job, src, dst, moving),
                Reply::Failed(message) => broken(job, message),
                _ => confused(job),
            }
        },
        Phase::Renaming => {
            match reply {
                Reply::Done => succeed(Job { op, phase: Phase::Finished, stack, note, found }),
                Reply::Failed(message) => ask(
                    Job { op, phase: Phase::Finished, stack, note: message, found },
                    Phase::KindProbe,
                    Action::Probe(Loc::top(src)),
                ),
                _ => confused(Job { op, phase: Phase::Finished, stack, note, found }),
            }
        },
        Phase::KindProbe => {
            match reply {
                Reply::Kind(Kind::File) => ask(
                    Job { op, phase: Phase::Finished, stack, note, found },
                    Phase::SingleCopy,
                    Action::CopyFile { from: Loc::top(src), to: Loc::top(dst) },
                ),
                Reply::Kind(Kind::Dir) => {
                    let mut only: Vec<Task> = Vec::new();
                    let whole: Vec<String> = Vec::new();
                    assert(whole.deep_view() =~= Seq::<Seq<char>>::empty());
                    only.push(Task::Dir(whole));
                    assert(only.deep_view() =~= seq![TaskView::Dir(Seq::empty())]);
                    dispatch(
                        Job { op, phase: Phase::Finished, stack: only, note, found },
                        src,
                        dst,
                        moving,
                    )
                },
                Reply::Kind(_) => {
                    let message = unsupported_source_message(moving, &note);
                    fail(
                        Job { op, phase: Phase::Finished, stack, note, found },
                        ErrorKind::UnsupportedSourceType,
                        message,
                    )
                },
                _ => confused(Job { op, phase: Phase::Finished, stack, note, found }),
            }
        },
        Phase::SingleCopy => {
            let job = Job { op, phase: Phase::Finished, stack, note, found };
            match reply {
                Reply::Done => conclude(job, src, moving, false),
                Reply::Failed(message) => broken(job, message),
                _ => confused(job),
            }
        },
        Phase::TreeMkdir(rel) => {
            let job = Job { op, phase: Phase::Finished, stack, note, found };
            match reply {
                Reply::Done => {
                    let dir = Loc::at(src, &rel);
                    ask(job, Phase::TreeList(rel), Action::ReadDir(dir))
                },
                Reply::Failed(message) => broken(job, message),
                _ => confused(job),
            }
        },
        Phase::TreeList(rel) => {
            match reply {
                Reply::Listing(items) => {
                    let mut stack = stack;
                    push_children(&mut stack, &items, &rel);
                    dispatch(
                        Job { op, phase: Phase::Finished, stack, note, found },
                        src,
                        dst,
                        moving,
                    )
                },
                Reply::Failed(message) => broken(
                    Job { op, phase: Phase::Finished, stack, note, found },
                    message,
                ),
                _ => confused(Job { op, phase: Phase::Finished, stack, note, found }),
            }
        },
        Phase::TreeFile => {
            let job = Job { op, phase: Phase::Finished, stack, note, found };
            match reply {
                Reply::Done => dispatch(job, src, dst, moving),
                Reply::Failed(message) => broken(job, message),
                _ => confused(job),
            }
        },
        Phase::SourceRemove { dir } => {
            match reply {
                Reply::Done => {
                    let text = moved_note_message(dir, &note);
                    halt(
                        Job { op, phase: Phase::Finished, stack, note, found },
                        Outcome::Done(OpResult::success_with_note(text)),
                    )
                },
                Reply::Failed(message) => broken(
                    Job { op, phase: Phase::Finished, stack, note, found },
                    message,
                ),
                _ => confused(Job { op, phase: Phase::Finished, stack, note, found }),
            }
        },
        _ => confused(Job { op, phase: Phase::Finished, stack, note, found }),
    }
}

/// View of an optional action.
spec fn action_view(a: Option<Action>) -> Option<ActionView> {
    match a {
        Some(action) => Some(action@),
        None => None,
    }
}

fn effect(op: &Op, kind: Kind) -> (r: Option<Action>)
    ensures
        action_view(r) == rules::effect(op@, kind),
{
    match op {
        Op::Delete { path } => Some(
            match kind {
                Kind::Dir => Action::RemoveDirAll(Loc::top(path)),
                _ => Action::RemoveFile(Loc::top(path)),
            },
        ),
        Op::HardLink { src, dst } => Some(
            Action::HardLink { from: Loc::top(src), to: Loc::top(dst) },
        ),
        Op::SetReadonly { path, readonly } => Some(
            Action::SetReadonly { path: Loc::top(path), readonly: *readonly },
        ),
        Op::Symlink { src, link, platform } => {
            let kind = match platform {
                Platform::Unix => LinkKind::Any,
                Platform::Windows => match kind {
                    Kind::Dir => LinkKind::Dir,
                    _ => LinkKind::File,
                },
            };
            Some(Action::Symlink { target: Loc::top(src), link: Loc::top(link), kind })
        },
        _ => None,
    }
}

fn missing_message(op: &Op) -> (r: String)
    ensures
        r@ == rules::missing_text(op@),
{
    match op {
        Op::Delete { path } => path_missing_message(path),
        Op::HardLink { src, dst } => source_missing_message(src),
        Op::SetReadonly { path, readonly } => path_missing_message(path),
        Op::Symlink { src, link, platform } => target_missing_message(src),
        _ => unexpected_reply_message(),
    }
}

fn step_simple(job: Job, reply: Reply) -> (r: (Job, Action))
    ensures
        (r.0@, r.1@) == rules::next_simple(job@, reply@),
{
    let Job { op, phase, stack, note, found } = job;
    match phase {
        Phase::TargetProbe => {
            match reply {
                Reply::Kind(Kind::Missing) => {
                    let message = missing_message(&op);
                    fail(
                        Job { op, phase: Phase::Finished, stack, note, found },
                        ErrorKind::NotFound,
                        message,
                    )
                },
                Reply::Kind(kind) => {
                    let action = effect(&op, kind);
                    let job = Job { op, phase: Phase::Finished, stack, note, found };
                    match action {
                        Some(action) => ask(job, Phase::Acting, action),
                        None => confused(job),
                    }
                },
                _ => confused(Job { op, phase: Phase::Finished, stack, note, found }),
            }
        },
        Phase::Acting => {
            let job = Job { op, phase: Phase::Finished, stack, note, found };
            match reply {
                Reply::Done => succeed(job),
                Reply::Failed(message) => broken(job, message),
                _ => confused(job),
            }
        },
        _ => confused(Job { op, phase: Phase::Finished, stack, note, found }),
    }
}

/// The command that creates the directory junction `link` for `target`: the
/// program and its arguments.
pub fn junction_command(link: &String, target: &String) -> (r: (String, Vec<String>))
    ensures
        r.0@ == "cmd"@,
        r.1.deep_view() == seq!["/C"@, "mklink"@, "/J"@, link@, target@],
        r.0@ == rules::junction_program(),
        r.1.deep_view() == rules::junction_args(link@, target@),
{
    let mut args: Vec<String> = Vec::new();
    args.push(String::from_str("/C"));
    args.push(String::from_str("mklink"));
    args.push(String::from_str("/J"));
    args.push(link.clone());
    args.push(target.clone());
    assert(args.deep_view() =~= seq!["/C"@, "mklink"@, "/J"@, link@, target@]);
    (String::from_str("cmd"), args)
}

fn step_junction(job: Job, target: &String, link: &String, reply: Reply) -> (r: (Job, Action))
    ensures
        (r.0@, r.1@) == rules::next_junction(job@, target@, link@, reply@),
{
    let Job { op, phase, stack, note, found } = job;
    let job = Job { op, phase: Phase::Finished, stack, note, found };
    match phase {
        Phase::JunctionParent => {
            match reply {
                Reply::Done => {
                    let (program, args) = junction_command(link, target);
                    ask(job, Phase::JunctionLink, Action::Run { program, args })
                },
                Reply::Failed(message) => broken(job, message),
                _ => confused(job),
            }
        },
        Phase::JunctionLink => {
            match reply {
                Reply::Output { success, stdout, stderr } => {
                    if success {
                        succeed(job)
                    } else {
                        broken(job, mklink_failed_message(&stdout, &stderr))
                    }
                },
                Reply::Failed(message) => broken(job, message),
                _ => confused(job),
            }
        },
        _ => confused(job),
    }
}

fn step_list(job: Job, path: &String, limit: Option<usize>, reply: Reply) -> (r: (Job, Action))
    ensures
        (r.0@, r.1@) == rules::next_list(job@, path@, limit, reply@),
{
    let Job { op, phase, stack, note, found } = job;
    let job = Job { op, phase: Phase::Finished, stack, note, found };
    match phase {
        Phase::TargetProbe => {
            match reply {
                Reply::Kind(Kind::Missing) => fail(job, ErrorKind::NotFound, dir_missing_message()),
                Reply::Kind(_) => ask(
                    job,
                    Phase::Listing,
                    Action::ListDir { dir: Loc::top(path), limit },
                ),
                _ => confused(job),
            }
        },
        Phase::Listing => {
            match reply {
                Reply::Listing(items) => match collect(&items, limit) {
                    Ok(entries) => halt(job, Outcome::Entries(entries)),
                    Err(message) => broken(job, message),
                },
                Reply::Failed(message) => broken(job, message),
                _ => confused(job),
            }
        },
        _ => confused(job),
    }
}

fn step_drives(job: Job, reply: Reply) -> (r: (Job, Action))
    ensures
        (r.0@, r.1@) == rules::next_drives(job@, reply@),
{
    let Job { op, phase, stack, note, found } = job;
    match phase {
        Phase::Mounts => {
            let job = Job { op, phase: Phase::Finished, stack, note, found };
            match reply {
                Reply::Text(text) => halt(job, Outcome::Drives(parse_mounts(text.as_str()))),
                Reply::Failed(_) => {
                    let none: Vec<String> = Vec::new();
                    assert(none.deep_view() =~= Seq::<Seq<char>>::empty());
                    halt(job, Outcome::Drives(none))
                },
                _ => confused(job),
            }
        },
        Phase::DriveScan(index) => {
            match reply {
                Reply::Kind(kind) => {
                    if index > 25 {
                        confused(Job { op, phase: Phase::Finished, stack, note, found })
                    } else {
                        let mut found = found;
                        let ghost before = found.deep_view();
                        match kind {
                            Kind::Missing => {},
                            _ => {
                                found.push(drive(index));
                                assert(found.deep_view() =~= before.push(
                                    crate::volumes::drive_root(index),
                                ));
                            },
                        }
                        if index >= 25 {
                            let all = found.clone();
                            assert(all.deep_view() =~= found.deep_view());
                            halt(
                                Job { op, phase: Phase::Finished, stack, note, found },
                                Outcome::Drives(all),
                            )
                        } else {
                            let following: u8 = index + 1;
                            let root = drive(following);
                            ask(
                                Job { op, phase: Phase::Finished, stack, note, found },
                                Phase::DriveScan(following),
                                Action::Probe(Loc::top(&root)),
                            )
                        }
                    }
                },
                _ => confused(Job { op, phase: Phase::Finished, stack, note, found }),
            }
        },
        _ => confused(Job { op, phase: Phase::Finished, stack, note, found }),
    }
}

/// The arguments that the rules of an operation read.
enum Plan {
    Transfer { src: String, dst: String, overwrite: bool, moving: bool },
    Junction { target: String, link: String },
    List { path: String, limit: Option<usize> },
    Drives,
    Simple,
}

impl Job {
    /// Whether the job has handed out its outcome.
    pub fn is_finished(&self) -> (b: bool)
        ensures
            b == (self@.phase is Finished),
    {
        match self.phase {
            Phase::Finished => true,
            _ => false,
        }
    }

    fn plan(&self) -> (p: Plan)
        ensures
            match p {
                Plan::Transfer { src, dst, overwrite, moving } => if moving {
                    self@.op == (OpView::Move { src: src@, dst: dst@, overwrite })
                } else {
                    self@.op == (OpView::Copy { src: src@, dst: dst@, overwrite })
                },
                Plan::Junction { target, link } => self@.op == (OpView::Junction {
                    target: target@,
                    link: link@,
                }),
                Plan::List { path, limit } => self@.op == (OpView::ListDir { path: path@, limit }),
                Plan::Drives => self@.op is ListDrives,
                Plan::Simple => self@.op is Delete || self@.op is HardLink
                    || self@.op is SetReadonly || self@.op is Symlink,
            },
    {
        match &self.op {
            Op::Copy { src, dst, overwrite } => Plan::Transfer {
                src: src.clone(),
                dst: dst.clone(),
                overwrite: *overwrite,
                moving: false,
            },
            Op::Move { src, dst, overwrite } => Plan::Transfer {
                src: src.clone(),
                dst: dst.clone(),
                overwrite: *overwrite,
                moving: true,
            },
            Op::Junction { target, link } => Plan::Junction {
                target: target.clone(),
                link: link.clone(),
            },
            Op::ListDir { path, limit } => Plan::List { path: path.clone(), limit: *limit },
            Op::ListDrives => Plan::Drives,
            _ => Plan::Simple,
        }
    }

    /// Takes the host's reply to the action that was asked last and returns
    /// the job's next state with the next action.
    pub fn step(self, reply: Reply) -> (r: (Job, Action))
        ensures
            (r.0@, r.1@) == rules::next(self@, reply@),
    {
        match self.plan() {
            Plan::Transfer { src, dst, overwrite, moving } => step_transfer(
                self,
                &src,
                &dst,
                overwrite,
                moving,
                reply,
            ),
            Plan::Junction { target, link } => step_junction(self, &target, &link, reply),
            Plan::List { path, limit } => step_list(self, &path, limit, reply),
            Plan::Drives => step_drives(self, reply),
            Plan::Simple => step_simple(self, reply),
        }
    }
}

} // verus!

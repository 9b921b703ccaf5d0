//! The vocabulary spoken between the decision logic and the host.
//!
//! The library never touches the filesystem. It asks for one [`Action`] at a
//! time and is told what happened in a [`Reply`]; whoever drives it performs
//! the action on the real host.

use vstd::prelude::*;

use crate::outcome::Outcome;
use crate::outcome::OutcomeView;

verus! {

/// What sits at a location.
#[derive(Debug, Clone, Copy, PartialEq, Eq, Structural)]
pub enum Kind {
    /// Nothing is there.
    Missing,
    /// A regular file.
    File,
    /// A directory.
    Dir,
    /// Something else, such as a device or a socket.
    Other,
}

/// The family of the host platform.
#[derive(Debug, Clone, Copy, PartialEq, Eq, Structural)]
pub enum Platform {
    Unix,
    Windows,
}

/// Which kind of symbolic link to create.
#[derive(Debug, Clone, Copy, PartialEq, Eq, Structural)]
pub enum LinkKind {
    /// The host does not distinguish link kinds.
    Any,
    /// A link to a file.
    File,
    /// A link to a directory.
    Dir,
}

/// A location: a path as the caller wrote it, and the names of the entries to
/// descend through below it.
#[derive(Debug, PartialEq, Eq)]
pub struct Loc {
    pub root: String,
    pub rel: Vec<String>,
}

/// Mathematical value of a [`Loc`].
pub struct LocView {
    pub root: Seq<char>,
    pub rel: Seq<Seq<char>>,
}

impl View for Loc {
    type V = LocView;

    open spec fn view(&self) -> LocView {
        LocView { root: self.root@, rel: self.rel.deep_view() }
    }
}

/// The location of the path `root` itself.
pub open spec fn top(root: Seq<char>) -> LocView {
    LocView { root, rel: Seq::empty() }
}

/// The location reached from `root` through the names in `rel`.
pub open spec fn at(root: Seq<char>, rel: Seq<Seq<char>>) -> LocView {
    LocView { root, rel }
}

impl Loc {
    /// The location of `root` itself.
    pub fn top(root: &String) -> (r: Loc)
        ensures
            r@ == top(root@),
    {
        let r = Loc { root: root.clone(), rel: Vec::new() };
        assert(r.rel.deep_view() =~= Seq::<Seq<char>>::empty());
        r
    }

    /// The location reached from `root` through `rel`.
    pub fn at(root: &String, rel: &Vec<String>) -> (r: Loc)
        ensures
            r@ == at(root@, rel.deep_view()),
    {
        let r = Loc { root: root.clone(), rel: rel.clone() };
        assert(r.rel.deep_view() =~= rel.deep_view());
        r
    }
}

/// One entry of a directory.
#[derive(Debug, PartialEq, Eq)]
pub struct FileEntry {
    pub name: String,
    pub is_dir: bool,
    pub path: String,
}

/// Mathematical value of a [`FileEntry`].
pub struct FileEntryView {
    pub name: Seq<char>,
    pub is_dir: bool,
    pub path: Seq<char>,
}

impl View for FileEntry {
    type V = FileEntryView;

    open spec fn view(&self) -> FileEntryView {
        FileEntryView { name: self.name@, is_dir: self.is_dir, path: self.path@ }
    }
}

impl DeepView for FileEntry {
    type V = FileEntryView;

    open spec fn deep_view(&self) -> FileEntryView {
        self@
    }
}

/// What the host found at one position while reading a directory.
#[derive(Debug, PartialEq, Eq)]
pub enum Item {
    /// An entry, with its name, kind and path.
    Entry(FileEntry),
    /// The entry itself could not be read; the text is the host's message.
    Unreadable(String),
    /// The entry was read but its kind could not be determined.
    Untyped(String),
}

/// Mathematical value of an [`Item`].
pub enum ItemView {
    Entry(FileEntryView),
    Unreadable(Seq<char>),
    Untyped(Seq<char>),
}

impl View for Item {
    type V = ItemView;

    open spec fn view(&self) -> ItemView {
        match self {
            Item::Entry(e) => ItemView::Entry(e@),
            Item::Unreadable(m) => ItemView::Unreadable(m@),
            Item::Untyped(m) => ItemView::Untyped(m@),
        }
    }
}

impl DeepView for Item {
    type V = ItemView;

    open spec fn deep_view(&self) -> ItemView {
        self@
    }
}

/// What the host is asked to do next.
#[derive(Debug, PartialEq, Eq)]
pub enum Action {
    /// Report what sits at the location, following symbolic links.
    Probe(Loc),
    /// Remove the directory and everything below it.
    RemoveDirAll(Loc),
    /// Remove the single non-directory entry.
    RemoveFile(Loc),
    /// Copy the content of one file to another location.
    CopyFile { from: Loc, to: Loc },
    /// Create the directory and all of its missing ancestors.
    CreateDirAll(Loc),
    /// Read the items of the directory in host order, each with its kind as
    /// the entry's file type tells it.
    ReadDir(Loc),
    /// Read the items of the directory in host order, each with its kind as
    /// the entry's metadata tell it. With a limit the host may stop once it
    /// has produced that many entries.
    ListDir { dir: Loc, limit: Option<usize> },
    /// Rename one entry to another location.
    Rename { from: Loc, to: Loc },
    /// Create a hard link at `to` for the entry at `from`.
    HardLink { from: Loc, to: Loc },
    /// Set or clear the read-only flag.
    SetReadonly { path: Loc, readonly: bool },
    /// Create a symbolic link at `link` that points to `target`.
    Symlink { target: Loc, link: Loc, kind: LinkKind },
    /// Create the missing ancestors of the location, not the location itself.
    CreateParentDirs(Loc),
    /// Run the program with the arguments and wait for it to end.
    Run { program: String, args: Vec<String> },
    /// Read the table of mounted filesystems as text.
    ReadMounts,
    /// Nothing more to do: hand the outcome to the caller.
    Finish(Outcome),
}

/// Mathematical value of an [`Action`].
pub enum ActionView {
    Probe(LocView),
    RemoveDirAll(LocView),
    RemoveFile(LocView),
    CopyFile { from: LocView, to: LocView },
    CreateDirAll(LocView),
    ReadDir(LocView),
    ListDir { dir: LocView, limit: Option<usize> },
    Rename { from: LocView, to: LocView },
    HardLink { from: LocView, to: LocView },
    SetReadonly { path: LocView, readonly: bool },
    Symlink { target: LocView, link: LocView, kind: LinkKind },
    CreateParentDirs(LocView),
    Run { program: Seq<char>, args: Seq<Seq<char>> },
    ReadMounts,
    Finish(OutcomeView),
}

impl View for Action {
    type V = ActionView;

    open spec fn view(&self) -> ActionView {
        match self {
            Action::Probe(l) => ActionView::Probe(l@),
            Action::RemoveDirAll(l) => ActionView::RemoveDirAll(l@),
            Action::RemoveFile(l) => ActionView::RemoveFile(l@),
            Action::CopyFile { from, to } => ActionView::CopyFile { from: from@, to: to@ },
            Action::CreateDirAll(l) => ActionView::CreateDirAll(l@),
            Action::ReadDir(l) => ActionView::ReadDir(l@),
            Action::ListDir { dir, limit } => ActionView::ListDir { dir: dir@, limit: *limit },
            Action::Rename { from, to } => ActionView::Rename { from: from@, to: to@ },
            Action::HardLink { from, to } => ActionView::HardLink { from: from@, to: to@ },
            Action::SetReadonly { path, readonly } => ActionView::SetReadonly {
                path: path@,
                readonly: *readonly,
            },
            Action::Symlink { target, link, kind } => ActionView::Symlink {
                target: target@,
                link: link@,
                kind: *kind,
            },
            Action::CreateParentDirs(l) => ActionView::CreateParentDirs(l@),
            Action::Run { program, args } => ActionView::Run {
                program: program@,
                args: args.deep_view(),
            },
            Action::ReadMounts => ActionView::ReadMounts,
            Action::Finish(o) => ActionView::Finish(o@),
        }
    }
}

/// What the host answers to an action.
#[derive(Debug, PartialEq, Eq)]
pub enum Reply {
    /// Answer to a probe.
    Kind(Kind),
    /// The action was carried out.
    Done,
    /// The action failed; the text is the host's message.
    Failed(String),
    /// The items of a directory, in host order.
    Listing(Vec<Item>),
    /// The text that was read.
    Text(String),
    /// A command ran to its end.
    Output { success: bool, stdout: String, stderr: String },
}

/// Mathematical value of a [`Reply`].
pub enum ReplyView {
    Kind(Kind),
    Done,
    Failed(Seq<char>),
    Listing(Seq<ItemView>),
    Text(Seq<char>),
    Output { success: bool, stdout: Seq<char>, stderr: Seq<char> },
}

impl View for Reply {
    type V = ReplyView;

    open spec fn view(&self) -> ReplyView {
        match self {
            Reply::Kind(k) => ReplyView::Kind(*k),
            Reply::Done => ReplyView::Done,
            Reply::Failed(m) => ReplyView::Failed(m@),
            Reply::Listing(v) => ReplyView::Listing(v.deep_view()),
            Reply::Text(t) => ReplyView::Text(t@),
            Reply::Output { success, stdout, stderr } => ReplyView::Output {
                success: *success,
                stdout: stdout@,
                stderr: stderr@,
            },
        }
    }
}

} // verus!

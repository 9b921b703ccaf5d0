//! A reference host: a mathematical filesystem that answers every action.
//!
//! The laws of the library are stated against this host. It knows files with
//! their content, directories with their entries in enumeration order, and
//! entries that are neither. Each root path stands for a tree of its own, so
//! two different roots never overlap. New entries are enumerated last.

use vstd::prelude::*;

use crate::host::at;
use crate::host::ActionView;
use crate::host::FileEntryView;
use crate::host::ItemView;
use crate::host::Kind;
use crate::host::LocView;
use crate::host::ReplyView;

verus! {

/// What sits at a location of the reference host, with everything below it.
pub enum Tree {
    /// A regular file and its content.
    File(Seq<u8>),
    /// A directory and its entries, each a name and a tree, in enumeration
    /// order.
    Dir(Seq<(Seq<char>, Tree)>),
    /// Something that is neither a file nor a directory.
    Other,
}

/// The first index at or after `from` whose entry has the given name, or the
/// number of entries if there is none.
pub open spec fn find(cs: Seq<(Seq<char>, Tree)>, name: Seq<char>, from: int) -> int
    decreases cs.len() - from,
{
    if from < 0 || from >= cs.len() {
        cs.len() as int
    } else if cs[from].0 == name {
        from
    } else {
        find(cs, name, from + 1)
    }
}

/// The index of the entry with the given name, or the number of entries if
/// there is none.
pub open spec fn index_of(cs: Seq<(Seq<char>, Tree)>, name: Seq<char>) -> int {
    find(cs, name, 0)
}

/// Whether no two entries share a name.
pub open spec fn distinct(cs: Seq<(Seq<char>, Tree)>) -> bool {
    forall|i: int, j: int| 0 <= i < j < cs.len() ==> cs[i].0 != cs[j].0
}

/// Whether a tree consists of files and directories only, with no name twice
/// in a directory.
pub open spec fn plain(t: Tree) -> bool
    decreases t,
{
    match t {
        Tree::File(_) => true,
        Tree::Dir(cs) => distinct(cs) && forall|i: int|
            0 <= i < cs.len() ==> plain(#[trigger] cs[i].1),
        Tree::Other => false,
    }
}

/// The tree reached from `t` through the names in `rel`, if there is one.
pub open spec fn get(t: Tree, rel: Seq<Seq<char>>) -> Option<Tree>
    decreases rel.len(),
{
    if rel.len() == 0 {
        Some(t)
    } else {
        match t {
            Tree::Dir(cs) => {
                let i = index_of(cs, rel[0]);
                if i < cs.len() {
                    get(cs[i].1, rel.drop_first())
                } else {
                    None
                }
            },
            _ => None,
        }
    }
}

/// The tree `t` wrapped in one directory for each name in `rel`.
pub open spec fn chain(rel: Seq<Seq<char>>, t: Tree) -> Tree
    decreases rel.len(),
{
    if rel.len() == 0 {
        t
    } else {
        Tree::Dir(seq![(rel[0], chain(rel.drop_first(), t))])
    }
}

/// The tree `t` with `x` placed at `rel`. Directories that are missing on the
/// way are created; an entry that is replaced keeps its place, a new one comes
/// last. Where the way leads through something that is not a directory, `t`
/// comes back unchanged.
pub open spec fn graft(t: Tree, rel: Seq<Seq<char>>, x: Tree) -> Tree
    decreases rel.len(),
{
    if rel.len() == 0 {
        x
    } else {
        match t {
            Tree::Dir(cs) => {
                let i = index_of(cs, rel[0]);
                if i < cs.len() {
                    Tree::Dir(cs.update(i, (rel[0], graft(cs[i].1, rel.drop_first(), x))))
                } else {
                    Tree::Dir(cs.push((rel[0], chain(rel.drop_first(), x))))
                }
            },
            _ => t,
        }
    }
}

/// Whether the way through `rel` leads through directories only, as far as it
/// exists.
pub open spec fn passable(t: Tree, rel: Seq<Seq<char>>) -> bool
    decreases rel.len(),
{
    if rel.len() == 0 {
        true
    } else {
        match t {
            Tree::Dir(cs) => {
                let i = index_of(cs, rel[0]);
                i < cs.len() ==> passable(cs[i].1, rel.drop_first())
            },
            _ => false,
        }
    }
}

/// The tree `t` without what sits at the non-empty `rel`.
pub open spec fn prune(t: Tree, rel: Seq<Seq<char>>) -> Tree
    decreases rel.len(),
{
    if rel.len() == 0 {
        t
    } else {
        match t {
            Tree::Dir(cs) => {
                let i = index_of(cs, rel[0]);
                if i >= cs.len() {
                    t
                } else if rel.len() == 1 {
                    Tree::Dir(cs.remove(i))
                } else {
                    Tree::Dir(cs.update(i, (rel[0], prune(cs[i].1, rel.drop_first()))))
                }
            },
            _ => t,
        }
    }
}

/// The kind of a tree.
pub open spec fn kind_of(t: Option<Tree>) -> Kind {
    match t {
        None => Kind::Missing,
        Some(Tree::File(_)) => Kind::File,
        Some(Tree::Dir(_)) => Kind::Dir,
        Some(Tree::Other) => Kind::Other,
    }
}

/// The path text of a location: the root, then each name after a slash.
pub open spec fn shown(root: Seq<char>, rel: Seq<Seq<char>>) -> Seq<char>
    decreases rel.len(),
{
    if rel.len() == 0 {
        root
    } else {
        shown(root, rel.drop_last()) + seq!['/'] + rel.last()
    }
}

/// What reading the directory at `dir` yields for its entries `cs`.
pub open spec fn items_of(cs: Seq<(Seq<char>, Tree)>, dir: LocView) -> Seq<ItemView> {
    Seq::new(
        cs.len(),
        |i: int|
            ItemView::Entry(
                FileEntryView {
                    name: cs[i].0,
                    is_dir: cs[i].1 is Dir,
                    path: shown(dir.root, dir.rel.push(cs[i].0)),
                },
            ),
    )
}

/// Whether `inner` is `outer` or lies below it.
pub open spec fn within(inner: LocView, outer: LocView) -> bool {
    inner.root == outer.root && outer.rel.is_prefix_of(inner.rel)
}

/// The reference host.
pub struct Host {
    /// The tree of every root path at which something exists.
    pub roots: Map<Seq<char>, Tree>,
    /// If set, every rename fails with this message, as it does between two
    /// volumes.
    pub rename_fault: Option<Seq<char>>,
    /// The message of every other failure.
    pub fault: Seq<char>,
}

impl Host {
    /// What sits at a location.
    pub open spec fn node(self, loc: LocView) -> Option<Tree> {
        if self.roots.contains_key(loc.root) {
            get(self.roots[loc.root], loc.rel)
        } else {
            None
        }
    }

    /// Whether the location is a root or sits directly in a directory.
    pub open spec fn parent_is_dir(self, loc: LocView) -> bool {
        loc.rel.len() > 0 ==> self.node(at(loc.root, loc.rel.drop_last())) is Some && self.node(
            at(loc.root, loc.rel.drop_last()),
        )->Some_0 is Dir
    }

    /// Whether directories can be created down to the location.
    pub open spec fn reachable(self, loc: LocView) -> bool {
        self.roots.contains_key(loc.root) ==> passable(self.roots[loc.root], loc.rel)
    }

    /// The host with `t` at the location.
    pub open spec fn with(self, loc: LocView, t: Tree) -> Host {
        Host {
            roots: self.roots.insert(
                loc.root,
                if self.roots.contains_key(loc.root) {
                    graft(self.roots[loc.root], loc.rel, t)
                } else {
                    chain(loc.rel, t)
                },
            ),
            ..self
        }
    }

    /// The host with nothing at the location.
    pub open spec fn without(self, loc: LocView) -> Host {
        Host {
            roots: if loc.rel.len() == 0 {
                self.roots.remove(loc.root)
            } else if self.roots.contains_key(loc.root) {
                self.roots.insert(loc.root, prune(self.roots[loc.root], loc.rel))
            } else {
                self.roots
            },
            ..self
        }
    }

    /// The host's answer to an action that failed, with the host unchanged.
    pub open spec fn refuse(self) -> (ReplyView, Host) {
        (ReplyView::Failed(self.fault), self)
    }

    /// The host's answer to an action, and the host after it. The reference
    /// host has no links, permissions, programs or mount table: it refuses
    /// the actions that concern them.
    pub open spec fn perform(self, action: ActionView) -> (ReplyView, Host) {
        match action {
            ActionView::Probe(loc) => (ReplyView::Kind(kind_of(self.node(loc))), self),
            ActionView::RemoveDirAll(loc) => match self.node(loc) {
                Some(Tree::Dir(_)) => (ReplyView::Done, self.without(loc)),
                _ => self.refuse(),
            },
            ActionView::RemoveFile(loc) => match self.node(loc) {
                Some(Tree::File(_)) => (ReplyView::Done, self.without(loc)),
                Some(Tree::Other) => (ReplyView::Done, self.without(loc)),
                _ => self.refuse(),
            },
            ActionView::CopyFile { from, to } => match self.node(from) {
                Some(Tree::File(content)) => if self.parent_is_dir(to) && (self.node(to) is None
                    || self.node(to)->Some_0 is File) {
                    (ReplyView::Done, self.with(to, Tree::File(content)))
                } else {
                    self.refuse()
                },
                _ => self.refuse(),
            },
            ActionView::CreateDirAll(loc) => match self.node(loc) {
                Some(Tree::Dir(_)) => (ReplyView::Done, self),
                None => if self.reachable(loc) {
                    (ReplyView::Done, self.with(loc, Tree::Dir(Seq::empty())))
                } else {
                    self.refuse()
                },
                _ => self.refuse(),
            },
            ActionView::ReadDir(dir) => match self.node(dir) {
                Some(Tree::Dir(cs)) => (ReplyView::Listing(items_of(cs, dir)), self),
                _ => self.refuse(),
            },
            ActionView::ListDir { dir, limit } => match self.node(dir) {
                Some(Tree::Dir(cs)) => (ReplyView::Listing(items_of(cs, dir)), self),
                _ => self.refuse(),
            },
            ActionView::Rename { from, to } => match self.rename_fault {
                Some(message) => (ReplyView::Failed(message), self),
                None => match self.node(from) {
                    Some(t) => if self.node(to) is None && self.parent_is_dir(to) && !within(
                        to,
                        from,
                    ) {
                        (ReplyView::Done, self.without(from).with(to, t))
                    } else {
                        self.refuse()
                    },
                    None => self.refuse(),
                },
            },
            _ => self.refuse(),
        }
    }
}

/// `find` returns the first matching index at or after `from`.
pub proof fn find_first(cs: Seq<(Seq<char>, Tree)>, name: Seq<char>, from: int)
    requires
        0 <= from <= cs.len(),
    ensures
        from <= find(cs, name, from) <= cs.len(),
        find(cs, name, from) < cs.len() ==> cs[find(cs, name, from)].0 == name,
        forall|k: int| from <= k < find(cs, name, from) ==> cs[k].0 != name,
    decreases cs.len() - from,
{
    if from < cs.len() && cs[from].0 != name {
        find_first(cs, name, from + 1);
    }
}

/// An index that is the first match at or after `from` is what `find` returns.
pub proof fn find_is(cs: Seq<(Seq<char>, Tree)>, name: Seq<char>, from: int, i: int)
    requires
        0 <= from <= i <= cs.len(),
        i < cs.len() ==> cs[i].0 == name,
        forall|k: int| from <= k < i ==> cs[k].0 != name,
    ensures
        find(cs, name, from) == i,
    decreases i - from,
{
    if from < i {
        find_is(cs, name, from + 1, i);
    }
}

/// Looking below a chain of directories made for `rel`.
pub proof fn chain_get(rel: Seq<Seq<char>>, x: Tree, s: Seq<Seq<char>>)
    ensures
        get(chain(rel, x), rel + s) == get(x, s),
    decreases rel.len(),
{
    if rel.len() == 0 {
        assert(rel + s =~= s);
    } else {
        let cs = seq![(rel[0], chain(rel.drop_first(), x))];
        find_is(cs, rel[0], 0, 0);
        assert((rel + s).drop_first() =~= rel.drop_first() + s);
        chain_get(rel.drop_first(), x, s);
    }
}

/// Adding an entry to the directory at the end of a chain.
pub proof fn chain_graft(rel: Seq<Seq<char>>, a: Seq<(Seq<char>, Tree)>, n: Seq<char>, t: Tree)
    requires
        index_of(a, n) >= a.len(),
    ensures
        graft(chain(rel, Tree::Dir(a)), rel.push(n), t) == chain(
            rel,
            Tree::Dir(a.push((n, t))),
        ),
    decreases rel.len(),
{
    if rel.len() == 0 {
        assert(rel.push(n).drop_first() =~= Seq::<Seq<char>>::empty());
    } else {
        let inner = chain(rel.drop_first(), Tree::Dir(a));
        let cs = seq![(rel[0], inner)];
        find_is(cs, rel[0], 0, 0);
        assert(rel.push(n).drop_first() =~= rel.drop_first().push(n));
        chain_graft(rel.drop_first(), a, n, t);
        assert(cs.update(0, (rel[0], chain(rel.drop_first(), Tree::Dir(a.push((n, t)))))) =~= seq![
            (rel[0], chain(rel.drop_first(), Tree::Dir(a.push((n, t))))),
        ]);
    }
}

/// What is placed at `rel` is found there, and below it what it holds.
pub proof fn get_graft(t: Tree, rel: Seq<Seq<char>>, x: Tree, s: Seq<Seq<char>>)
    requires
        passable(t, rel),
    ensures
        get(graft(t, rel, x), rel + s) == get(x, s),
    decreases rel.len(),
{
    if rel.len() == 0 {
        assert(rel + s =~= s);
    } else {
        let cs = t->Dir_0;
        let i = index_of(cs, rel[0]);
        find_first(cs, rel[0], 0);
        assert((rel + s).drop_first() =~= rel.drop_first() + s);
        if i < cs.len() {
            let after = cs.update(i, (rel[0], graft(cs[i].1, rel.drop_first(), x)));
            find_is(after, rel[0], 0, i);
            get_graft(cs[i].1, rel.drop_first(), x, s);
        } else {
            let after = cs.push((rel[0], chain(rel.drop_first(), x)));
            find_is(after, rel[0], 0, cs.len() as int);
            chain_get(rel.drop_first(), x, s);
        }
    }
}

/// Placing a directory and then a new entry in it is placing the directory
/// with that entry.
pub proof fn graft_entry(
    t: Tree,
    rel: Seq<Seq<char>>,
    a: Seq<(Seq<char>, Tree)>,
    n: Seq<char>,
    x: Tree,
)
    requires
        index_of(a, n) >= a.len(),
    ensures
        graft(graft(t, rel, Tree::Dir(a)), rel.push(n), x) == graft(
            t,
            rel,
            Tree::Dir(a.push((n, x))),
        ),
    decreases rel.len(),
{
    if rel.len() == 0 {
        assert(rel.push(n).drop_first() =~= Seq::<Seq<char>>::empty());
    } else {
        assert(rel.push(n).drop_first() =~= rel.drop_first().push(n));
        match t {
            Tree::Dir(cs) => {
                let i = index_of(cs, rel[0]);
                find_first(cs, rel[0], 0);
                if i < cs.len() {
                    let mid = cs.update(i, (rel[0], graft(cs[i].1, rel.drop_first(), Tree::Dir(a))));
                    find_is(mid, rel[0], 0, i);
                    graft_entry(cs[i].1, rel.drop_first(), a, n, x);
                    assert(mid.update(
                        i,
                        (rel[0], graft(cs[i].1, rel.drop_first(), Tree::Dir(a.push((n, x))))),
                    ) =~= cs.update(
                        i,
                        (rel[0], graft(cs[i].1, rel.drop_first(), Tree::Dir(a.push((n, x))))),
                    ));
                } else {
                    let mid = cs.push((rel[0], chain(rel.drop_first(), Tree::Dir(a))));
                    find_is(mid, rel[0], 0, cs.len() as int);
                    chain_graft(rel.drop_first(), a, n, x);
                    assert(mid.update(
                        cs.len() as int,
                        (rel[0], chain(rel.drop_first(), Tree::Dir(a.push((n, x))))),
                    ) =~= cs.push((rel[0], chain(rel.drop_first(), Tree::Dir(a.push((n, x)))))));
                }
            },
            _ => {},
        }
    }
}

/// What sits one name below `rel`.
pub proof fn get_push(t: Tree, rel: Seq<Seq<char>>, n: Seq<char>)
    ensures
        get(t, rel.push(n)) == match get(t, rel) {
            Some(Tree::Dir(cs)) => if index_of(cs, n) < cs.len() {
                Some(cs[index_of(cs, n)].1)
            } else {
                None
            },
            _ => None,
        },
    decreases rel.len(),
{
    if rel.len() == 0 {
        assert(rel.push(n).drop_first() =~= Seq::<Seq<char>>::empty());
        match t {
            Tree::Dir(cs) => {
                find_first(cs, n, 0);
                let i = index_of(cs, n);
                if i < cs.len() {
                    assert(get(cs[i].1, Seq::empty()) == Some(cs[i].1));
                }
            },
            _ => {},
        }
    } else {
        assert(rel.push(n).drop_first() =~= rel.drop_first().push(n));
        match t {
            Tree::Dir(cs) => {
                let i = index_of(cs, rel[0]);
                find_first(cs, rel[0], 0);
                if i < cs.len() {
                    get_push(cs[i].1, rel.drop_first(), n);
                }
            },
            _ => {},
        }
    }
}

/// Below a directory every way is passable for one more name.
pub proof fn passable_below(t: Tree, rel: Seq<Seq<char>>)
    requires
        rel.len() > 0,
        get(t, rel.drop_last()) is Some,
        get(t, rel.drop_last())->Some_0 is Dir,
    ensures
        passable(t, rel),
    decreases rel.len(),
{
    if rel.len() == 1 {
        assert(rel.drop_last() =~= Seq::<Seq<char>>::empty());
        assert(rel.drop_first() =~= Seq::<Seq<char>>::empty());
        match t {
            Tree::Dir(cs) => {
                find_first(cs, rel[0], 0);
                let i = index_of(cs, rel[0]);
                if i < cs.len() {
                    assert(passable(cs[i].1, Seq::empty()));
                }
            },
            _ => {},
        }
    } else {
        assert(rel.drop_last().drop_first() =~= rel.drop_first().drop_last());
        match t {
            Tree::Dir(cs) => {
                let i = index_of(cs, rel[0]);
                find_first(cs, rel[0], 0);
                if i < cs.len() {
                    passable_below(cs[i].1, rel.drop_first());
                }
            },
            _ => {},
        }
    }
}

} // verus!

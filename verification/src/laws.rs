//! What the operations achieve on the reference host.
//!
//! A job and a host together form a [`World`]. Running the world lets the
//! host perform each action the job asks for and hands the job the reply,
//! until the job finishes. The laws at the end of this module say how worlds
//! end for copy, move and delete.

use vstd::prelude::*;

use crate::host::at;
use crate::host::top;
use crate::host::ActionView;
use crate::host::ReplyView;
use crate::listing::all_entries;
use crate::listing::entries;
use crate::listing::listed_is_prefix;
use crate::listing::truncated;
use crate::messages::dir_missing;
use crate::messages::dest_exists;
use crate::messages::moved_note;
use crate::messages::path_missing;
use crate::messages::source_missing;
use crate::model::chain_get;
use crate::model::chain_graft;
use crate::model::find_is;
use crate::model::get;
use crate::model::get_graft;
use crate::model::get_push;
use crate::model::graft_entry;
use crate::model::index_of;
use crate::model::items_of;
use crate::model::passable_below;
use crate::model::plain;
use crate::model::Host;
use crate::model::Tree;
use crate::outcome::plain_success;
use crate::outcome::ErrorKind;
use crate::outcome::OpErrorView;
use crate::outcome::OpResultView;
use crate::outcome::OutcomeView;
use crate::rules::begin_copy;
use crate::rules::begin_delete;
use crate::rules::begin_list;
use crate::rules::begin_move;
use crate::rules::dispatch;
use crate::rules::fresh;
use crate::rules::next;
use crate::rules::conclude;
use crate::rules::transfer;
use crate::rules::PhaseView;
use crate::rules::unfold;
use crate::rules::JobView;
use crate::rules::OpView;
use crate::rules::TaskView;

verus! {

/// A job, the action it has asked for, and the host that is to perform it.
pub struct World {
    pub job: JobView,
    pub action: ActionView,
    pub host: Host,
}

/// The world in which a job that has just started meets `host`.
pub open spec fn world(start: (JobView, ActionView), host: Host) -> World {
    World { job: start.0, action: start.1, host }
}

/// One round: the host performs the action and the job takes the reply. A
/// finished world stays as it is.
pub open spec fn advance(w: World) -> World {
    if w.action is Finish {
        w
    } else {
        let (reply, host) = w.host.perform(w.action);
        let (job, action) = next(w.job, reply);
        World { job, action, host }
    }
}

/// The world after `n` rounds.
pub open spec fn run(w: World, n: nat) -> World
    decreases n,
{
    if n == 0 {
        w
    } else {
        run(advance(w), (n - 1) as nat)
    }
}

/// Running `a` rounds and then `b` rounds is running `a + b` rounds.
pub proof fn run_add(w: World, a: nat, b: nat)
    ensures
        run(w, a + b) == run(run(w, a), b),
    decreases a,
{
    if a > 0 {
        run_add(advance(w), (a - 1) as nat, b);
    }
}

/// Running one round is advancing once.
pub proof fn run_one(w: World)
    ensures
        run(w, 1) == advance(w),
{
    reveal_with_fuel(run, 2);
}

/// Running one more round is advancing the world reached so far.
pub proof fn run_next(w: World, n: nat)
    ensures
        run(w, n + 1) == advance(run(w, n)),
{
    run_add(w, n, 1);
    run_one(run(w, n));
}

/// A finished world stays as it is.
pub proof fn run_finished(w: World, n: nat)
    requires
        w.action is Finish,
    ensures
        run(w, n) == w,
    decreases n,
{
    if n > 0 {
        run_finished(w, (n - 1) as nat);
    }
}

/// Whether the world comes to an end with `outcome`, leaving the host as
/// `host`.
pub open spec fn ends(w: World, outcome: OutcomeView, host: Host) -> bool {
    exists|n: nat|
        (#[trigger] run(w, n)).action == ActionView::Finish(outcome) && run(w, n).host == host
}

/// A world ends in one way only.
pub proof fn ends_once(w: World, o1: OutcomeView, h1: Host, o2: OutcomeView, h2: Host)
    requires
        ends(w, o1, h1),
        ends(w, o2, h2),
    ensures
        o1 == o2,
        h1 == h2,
{
    let n1 = choose|n: nat|
        (#[trigger] run(w, n)).action == ActionView::Finish(o1) && run(w, n).host == h1;
    let n2 = choose|n: nat|
        (#[trigger] run(w, n)).action == ActionView::Finish(o2) && run(w, n).host == h2;
    if n1 <= n2 {
        run_add(w, n1, (n2 - n1) as nat);
        run_finished(run(w, n1), (n2 - n1) as nat);
    } else {
        run_add(w, n2, (n1 - n2) as nat);
        run_finished(run(w, n2), (n1 - n2) as nat);
    }
}

/// Whether `op` is the copy, or with `moving` the move, of `src` to `dst`.
pub open spec fn transfers(op: OpView, src: Seq<char>, dst: Seq<char>, moving: bool) -> bool {
    match op {
        OpView::Copy { src: s, dst: d, overwrite } => !moving && s == src && d == dst,
        OpView::Move { src: s, dst: d, overwrite } => moving && s == src && d == dst,
        _ => false,
    }
}

/// The world of a tree copy that is about to take up its next task.
pub open spec fn tree_world(
    job: JobView,
    src: Seq<char>,
    dst: Seq<char>,
    moving: bool,
    host: Host,
) -> World {
    world(dispatch(job, src, dst, moving), host)
}

/// The task that copies the tree `t` found at `rel`.
pub open spec fn task_of(t: Tree, rel: Seq<Seq<char>>) -> TaskView {
    if t is Dir {
        TaskView::Dir(rel)
    } else {
        TaskView::File(rel)
    }
}

/// The number of rounds it takes to copy a plain tree.
pub open spec fn cost(t: Tree) -> nat
    decreases t,
{
    match t {
        Tree::Dir(cs) => 2 + cost_all(cs, 0),
        _ => 1,
    }
}

/// The number of rounds it takes to copy the entries `cs[j..]`.
pub open spec fn cost_all(cs: Seq<(Seq<char>, Tree)>, j: int) -> nat
    decreases cs, cs.len() - j,
{
    if 0 <= j < cs.len() {
        cost(cs[j].1) + cost_all(cs, j + 1)
    } else {
        0
    }
}

/// The phase a job is in does not matter to what it takes up next.
proof fn dispatch_any_phase(
    job: JobView,
    other: JobView,
    src: Seq<char>,
    dst: Seq<char>,
    moving: bool,
)
    requires
        other == (JobView { phase: other.phase, ..job }),
    ensures
        dispatch(other, src, dst, moving) == dispatch(job, src, dst, moving),
{
}

/// What the destination holds at `rel` after a directory was placed there.
proof fn placed_dir(host: Host, dst: Seq<char>, rel: Seq<Seq<char>>, a: Seq<(Seq<char>, Tree)>)
    requires
        host.reachable(at(dst, rel)),
    ensures
        host.with(at(dst, rel), Tree::Dir(a)).node(at(dst, rel)) == Some(Tree::Dir(a)),
{
    assert(rel + Seq::<Seq<char>>::empty() =~= rel);
    if host.roots.contains_key(dst) {
        get_graft(host.roots[dst], rel, Tree::Dir(a), Seq::empty());
    } else {
        chain_get(rel, Tree::Dir(a), Seq::empty());
    }
}

/// Placing a directory and then a new entry in it is placing the directory
/// with that entry.
proof fn placed_entry(
    host: Host,
    dst: Seq<char>,
    rel: Seq<Seq<char>>,
    a: Seq<(Seq<char>, Tree)>,
    n: Seq<char>,
    x: Tree,
)
    requires
        index_of(a, n) >= a.len(),
    ensures
        host.with(at(dst, rel), Tree::Dir(a)).with(at(dst, rel.push(n)), x) == host.with(
            at(dst, rel),
            Tree::Dir(a.push((n, x))),
        ),
{
    let mid = host.with(at(dst, rel), Tree::Dir(a));
    let end = host.with(at(dst, rel), Tree::Dir(a.push((n, x))));
    if host.roots.contains_key(dst) {
        graft_entry(host.roots[dst], rel, a, n, x);
    } else {
        chain_graft(rel, a, n, x);
    }
    assert(mid.with(at(dst, rel.push(n)), x).roots =~= end.roots);
}

/// Where the parent of a location is a directory, directories can be created
/// down to it.
proof fn parent_reachable(host: Host, dst: Seq<char>, rel: Seq<Seq<char>>)
    requires
        host.parent_is_dir(at(dst, rel)),
    ensures
        host.reachable(at(dst, rel)),
{
    if rel.len() > 0 {
        passable_below(host.roots[dst], rel);
    }
}

/// A tree copy that takes up the task for the plain tree `t` at `rel` has,
/// `cost(t)` rounds later, placed `t` at `rel` below the destination and is
/// about to take up the task after it.
proof fn copy_task(
    job: JobView,
    host: Host,
    src: Seq<char>,
    dst: Seq<char>,
    moving: bool,
    rel: Seq<Seq<char>>,
    t: Tree,
)
    requires
        transfers(job.op, src, dst, moving),
        src != dst,
        job.stack.len() > 0,
        job.stack.last() == task_of(t, rel),
        plain(t),
        host.roots.contains_key(src),
        get(host.roots[src], rel) == Some(t),
        host.node(at(dst, rel)) is None,
        host.parent_is_dir(at(dst, rel)),
    ensures
        run(tree_world(job, src, dst, moving, host), cost(t)) == tree_world(
            JobView { stack: job.stack.drop_last(), ..job },
            src,
            dst,
            moving,
            host.with(at(dst, rel), t),
        ),
    decreases t, 0nat,
{
    let rest = JobView { stack: job.stack.drop_last(), ..job };
    let w = tree_world(job, src, dst, moving, host);
    match t {
        Tree::Dir(cs) => {
            parent_reachable(host, dst, rel);
            let made = host.with(at(dst, rel), Tree::Dir(Seq::empty()));
            let w1 = advance(w);
            assert(w1.host == made);
            let items = items_of(cs, at(src, rel));
            let w2 = advance(w1);
            assert(made.roots[src] == host.roots[src]);
            assert(w2.host == made);
            let filled = JobView { stack: unfold(rest.stack, items, rel, 0), ..rest };
            dispatch_any_phase(filled, JobView { stack: filled.stack, ..w1.job }, src, dst, moving);
            assert(w2 == tree_world(filled, src, dst, moving, made));
            assert(cs.take(0) =~= Seq::<(Seq<char>, Tree)>::empty());
            copy_children(rest, host, src, dst, moving, rel, cs, 0);
            run_one(w);
            run_one(w1);
            run_add(w, 1, 1);
            run_add(w, 2, cost_all(cs, 0));
        },
        _ => {
            dispatch_any_phase(rest, w.job, src, dst, moving);
            run_one(w);
        },
    }
}

/// A tree copy that has placed the first `j` entries of the directory at
/// `rel` and is about to take up the task for the next one has,
/// `cost_all(cs, j)` rounds later, placed them all.
proof fn copy_children(
    job: JobView,
    host: Host,
    src: Seq<char>,
    dst: Seq<char>,
    moving: bool,
    rel: Seq<Seq<char>>,
    cs: Seq<(Seq<char>, Tree)>,
    j: int,
)
    requires
        transfers(job.op, src, dst, moving),
        src != dst,
        plain(Tree::Dir(cs)),
        0 <= j <= cs.len(),
        host.roots.contains_key(src),
        get(host.roots[src], rel) == Some(Tree::Dir(cs)),
        host.node(at(dst, rel)) is None,
        host.reachable(at(dst, rel)),
    ensures
        run(
            tree_world(
                JobView {
                    stack: unfold(job.stack, items_of(cs, at(src, rel)), rel, j),
                    ..job
                },
                src,
                dst,
                moving,
                host.with(at(dst, rel), Tree::Dir(cs.take(j))),
            ),
            cost_all(cs, j),
        ) == tree_world(job, src, dst, moving, host.with(at(dst, rel), Tree::Dir(cs))),
    decreases cs, cs.len() - j,
{
    let items = items_of(cs, at(src, rel));
    let here = host.with(at(dst, rel), Tree::Dir(cs.take(j)));
    let pending = JobView { stack: unfold(job.stack, items, rel, j), ..job };
    if j == cs.len() {
        assert(cs.take(j) =~= cs);
    } else {
        let n = cs[j].0;
        let t = cs[j].1;
        let a = cs.take(j);
        let below = rel.push(n);
        assert(pending.stack.last() == task_of(t, below));
        assert(pending.stack.drop_last() =~= unfold(job.stack, items, rel, j + 1));
        assert(here.roots[src] == host.roots[src]);
        assert(get(here.roots[src], below) == Some(t)) by {
            get_push(host.roots[src], rel, n);
            find_is(cs, n, 0, j);
        }
        assert(index_of(a, n) >= a.len()) by {
            find_is(a, n, 0, a.len() as int);
        }
        placed_dir(host, dst, rel, a);
        assert(below.drop_last() =~= rel);
        assert(here.node(at(dst, below)) is None) by {
            get_push(here.roots[dst], rel, n);
        }
        copy_task(pending, here, src, dst, moving, below, t);
        placed_entry(host, dst, rel, a, n, t);
        assert(a.push((n, t)) =~= cs.take(j + 1));
        copy_children(job, host, src, dst, moving, rel, cs, j + 1);
        let w = tree_world(pending, src, dst, moving, here);
        run_add(w, cost(t), cost_all(cs, j + 1));
    }
}

/// How a copy, or with `moving` a move, starts.
pub open spec fn begin_transfer(src: Seq<char>, dst: Seq<char>, overwrite: bool, moving: bool) -> (
    JobView,
    ActionView,
) {
    if moving {
        begin_move(src, dst, overwrite)
    } else {
        begin_copy(src, dst, overwrite)
    }
}

/// The host with the tree `t` at the root `path`.
pub open spec fn holding(host: Host, path: Seq<char>, t: Tree) -> Host {
    Host { roots: host.roots.insert(path, t), ..host }
}

/// The host with nothing at the root `path`.
pub open spec fn lacking(host: Host, path: Seq<char>) -> Host {
    Host { roots: host.roots.remove(path), ..host }
}

/// The success that a move reports after it fell back to copying.
pub open spec fn moved(dir: bool, note: Seq<char>) -> OutcomeView {
    OutcomeView::Done(OpResultView { ok: true, msg: Some(moved_note(dir, note)) })
}

/// A failure of the given kind.
pub open spec fn failure(kind: ErrorKind, message: Seq<char>) -> OutcomeView {
    OutcomeView::Failed(OpErrorView { kind, message })
}

/// A transfer whose source exists and whose destination is free or may be
/// overwritten comes, with the destination cleared, to the point where the
/// transfer proper begins.
proof fn clears_destination(
    host: Host,
    src: Seq<char>,
    dst: Seq<char>,
    overwrite: bool,
    moving: bool,
) -> (n: nat)
    requires
        host.roots.contains_key(src),
        src != dst,
        overwrite || !host.roots.contains_key(dst),
    ensures
        run(world(begin_transfer(src, dst, overwrite, moving), host), n) == world(
            transfer(begin_transfer(src, dst, overwrite, moving).0, src, dst, moving),
            lacking(host, dst),
        ),
{
    let w0 = world(begin_transfer(src, dst, overwrite, moving), host);
    assert(get(host.roots[src], Seq::empty()) == Some(host.roots[src]));
    let w1 = advance(w0);
    run_one(w0);
    let w2 = advance(w1);
    run_next(w0, 1);
    if host.roots.contains_key(dst) {
        assert(get(host.roots[dst], Seq::empty()) == Some(host.roots[dst]));
        let w3 = advance(w2);
        run_next(w0, 2);
        assert(w3.host.roots =~= host.roots.remove(dst));
        3
    } else {
        assert(host.roots =~= host.roots.remove(dst));
        2
    }
}

/// A transfer that has come to look at its plain source copies it to the
/// free destination and then concludes.
proof fn copies_source(job: JobView, host: Host, src: Seq<char>, dst: Seq<char>, moving: bool) -> (n:
    nat)
    requires
        transfers(job.op, src, dst, moving),
        src != dst,
        job.stack.len() == 0,
        host.roots.contains_key(src),
        plain(host.roots[src]),
        !host.roots.contains_key(dst),
    ensures
        run(
            world(
                (
                    JobView { phase: PhaseView::KindProbe, ..job },
                    ActionView::Probe(top(src)),
                ),
                host,
            ),
            n,
        ) == world(
            conclude(job, src, moving, host.roots[src] is Dir),
            holding(host, dst, host.roots[src]),
        ),
{
    let t = host.roots[src];
    let w0 = world(
        (JobView { phase: PhaseView::KindProbe, ..job }, ActionView::Probe(top(src))),
        host,
    );
    assert(get(t, Seq::empty()) == Some(t));
    let w1 = advance(w0);
    run_one(w0);
    match t {
        Tree::Dir(cs) => {
            let only = JobView { stack: seq![TaskView::Dir(Seq::empty())], ..job };
            dispatch_any_phase(only, JobView { stack: only.stack, ..w0.job }, src, dst, moving);
            assert(w1 == tree_world(only, src, dst, moving, host));
            copy_task(only, host, src, dst, moving, Seq::empty(), t);
            assert(only.stack.drop_last() =~= job.stack);
            assert(host.with(at(dst, Seq::empty()), t).roots =~= host.roots.insert(dst, t));
            run_add(w0, 1, cost(t));
            1 + cost(t)
        },
        _ => {
            let w2 = advance(w1);
            run_next(w0, 1);
            assert(w2.host.roots =~= host.roots.insert(dst, t));
            2
        },
    }
}

/// Copying a single file to a free destination succeeds; afterwards both
/// paths hold a file with the content the source had, and nothing else has
/// changed.
pub proof fn copy_of_file_is_identical(host: Host, src: Seq<char>, dst: Seq<char>)
    requires
        host.node(top(src)) is Some,
        host.node(top(src))->Some_0 is File,
        !host.roots.contains_key(dst),
    ensures
        ends(
            world(begin_copy(src, dst, false), host),
            OutcomeView::Done(plain_success()),
            holding(host, dst, host.roots[src]),
        ),
        holding(host, dst, host.roots[src]).node(top(dst)) == host.node(top(src)),
        holding(host, dst, host.roots[src]).node(top(src)) == host.node(top(src)),
{
    assert(get(host.roots[src], Seq::empty()) == Some(host.roots[src]));
    copy_replaces_destination(host, src, dst, false);
}

/// Copying a plain source to another path succeeds where the destination is
/// free or may be overwritten, whatever the destination held; afterwards the
/// destination holds what the source held, and nothing else has changed.
pub proof fn copy_replaces_destination(host: Host, src: Seq<char>, dst: Seq<char>, overwrite: bool)
    requires
        host.roots.contains_key(src),
        plain(host.roots[src]),
        src != dst,
        overwrite || !host.roots.contains_key(dst),
    ensures
        ends(
            world(begin_copy(src, dst, overwrite), host),
            OutcomeView::Done(plain_success()),
            holding(host, dst, host.roots[src]),
        ),
{
    let w0 = world(begin_copy(src, dst, overwrite), host);
    let n1 = clears_destination(host, src, dst, overwrite, false);
    let job = begin_copy(src, dst, overwrite).0;
    let free = lacking(host, dst);
    let n2 = copies_source(job, free, src, dst, false);
    run_add(w0, n1, n2);
    assert(holding(free, dst, host.roots[src]).roots =~= host.roots.insert(dst, host.roots[src]));
    assert(run(w0, n1 + n2).host == holding(host, dst, host.roots[src]));
}

/// Copying a plain tree reproduces its whole structure: the copy succeeds,
/// and afterwards every path below the source leads, below the destination,
/// to the same file content or directory, while the source is as it was.
pub proof fn copy_reproduces_tree(host: Host, src: Seq<char>, dst: Seq<char>, overwrite: bool)
    requires
        host.roots.contains_key(src),
        plain(host.roots[src]),
        src != dst,
        overwrite || !host.roots.contains_key(dst),
    ensures
        ends(
            world(begin_copy(src, dst, overwrite), host),
            OutcomeView::Done(plain_success()),
            holding(host, dst, host.roots[src]),
        ),
        forall|rel: Seq<Seq<char>>| #[trigger]
            holding(host, dst, host.roots[src]).node(at(dst, rel)) == host.node(at(src, rel)),
        forall|rel: Seq<Seq<char>>| #[trigger]
            holding(host, dst, host.roots[src]).node(at(src, rel)) == host.node(at(src, rel)),
{
    copy_replaces_destination(host, src, dst, overwrite);
}

/// A transfer to a destination that exists fails when overwriting was not
/// asked for, and leaves the host as it was.
pub proof fn transfer_keeps_destination(host: Host, src: Seq<char>, dst: Seq<char>, moving: bool)
    requires
        host.roots.contains_key(src),
        host.roots.contains_key(dst),
    ensures
        ends(
            world(begin_transfer(src, dst, false, moving), host),
            failure(ErrorKind::AlreadyExists, dest_exists(dst, moving)),
            host,
        ),
{
    let w0 = world(begin_transfer(src, dst, false, moving), host);
    assert(get(host.roots[src], Seq::empty()) == Some(host.roots[src]));
    assert(get(host.roots[dst], Seq::empty()) == Some(host.roots[dst]));
    let w1 = advance(w0);
    run_one(w0);
    let w2 = advance(w1);
    run_next(w0, 1);
    assert(run(w0, 2).host == host);
}

/// A transfer from a source that does not exist fails and leaves the host as
/// it was.
pub proof fn transfer_needs_source(
    host: Host,
    src: Seq<char>,
    dst: Seq<char>,
    overwrite: bool,
    moving: bool,
)
    requires
        !host.roots.contains_key(src),
    ensures
        ends(
            world(begin_transfer(src, dst, overwrite, moving), host),
            failure(ErrorKind::NotFound, source_missing(src)),
            host,
        ),
{
    let w0 = world(begin_transfer(src, dst, overwrite, moving), host);
    let w1 = advance(w0);
    run_one(w0);
    assert(run(w0, 1).host == host);
}

/// Where the host can rename, a move to another path succeeds without a
/// note; afterwards the source is gone and the destination holds what the
/// source held.
pub proof fn move_renames(host: Host, src: Seq<char>, dst: Seq<char>, overwrite: bool)
    requires
        host.rename_fault is None,
        host.roots.contains_key(src),
        src != dst,
        overwrite || !host.roots.contains_key(dst),
    ensures
        ends(
            world(begin_move(src, dst, overwrite), host),
            OutcomeView::Done(plain_success()),
            holding(lacking(host, src), dst, host.roots[src]),
        ),
{
    let w0 = world(begin_move(src, dst, overwrite), host);
    let n1 = clears_destination(host, src, dst, overwrite, true);
    let w1 = run(w0, n1);
    let t = host.roots[src];
    assert(get(t, Seq::empty()) == Some(t));
    let w2 = advance(w1);
    run_next(w0, n1);
    assert(w2.host.roots =~= host.roots.remove(src).insert(dst, t));
    assert(run(w0, n1 + 1).host == holding(lacking(host, src), dst, host.roots[src]));
}

/// Where the host cannot rename, a move of a plain source to another path
/// still succeeds, by copying; afterwards the source is gone, the destination
/// holds what the source held, and the note tells of the failed rename.
pub proof fn move_falls_back(host: Host, src: Seq<char>, dst: Seq<char>, overwrite: bool)
    requires
        host.rename_fault is Some,
        host.roots.contains_key(src),
        plain(host.roots[src]),
        src != dst,
        overwrite || !host.roots.contains_key(dst),
    ensures
        ends(
            world(begin_move(src, dst, overwrite), host),
            moved(host.roots[src] is Dir, host.rename_fault->Some_0),
            holding(lacking(host, src), dst, host.roots[src]),
        ),
        moved_note(host.roots[src] is Dir, host.rename_fault->Some_0).len() > 0,
{
    let w0 = world(begin_move(src, dst, overwrite), host);
    let t = host.roots[src];
    let note = host.rename_fault->Some_0;
    let n1 = clears_destination(host, src, dst, overwrite, true);
    let free = lacking(host, dst);
    let w1 = run(w0, n1);
    let w2 = advance(w1);
    run_next(w0, n1);
    let job = JobView { note, ..begin_move(src, dst, overwrite).0 };
    assert(w2 == world(
        (JobView { phase: PhaseView::KindProbe, ..job }, ActionView::Probe(top(src))),
        free,
    ));
    let n2 = copies_source(job, free, src, dst, true);
    run_add(w0, n1 + 1, n2);
    let w3 = run(w0, n1 + 1 + n2);
    let full = holding(free, dst, t);
    assert(get(full.roots[src], Seq::empty()) == Some(t));
    let w4 = advance(w3);
    run_next(w0, n1 + 1 + n2);
    assert(w4.host.roots =~= host.roots.remove(src).insert(dst, t));
    assert(run(w0, n1 + 1 + n2 + 1).host == holding(lacking(host, src), dst, t));
    reveal_strlit("Moved dir via copy (rename failed): ");
    reveal_strlit("Moved via copy (rename failed): ");
}

/// Deleting a path that exists succeeds; afterwards nothing is found at the
/// path or anywhere below it, and nothing else has changed.
pub proof fn delete_removes_everything(host: Host, path: Seq<char>)
    requires
        host.roots.contains_key(path),
    ensures
        ends(
            world(begin_delete(path), host),
            OutcomeView::Done(plain_success()),
            lacking(host, path),
        ),
        forall|rel: Seq<Seq<char>>| #[trigger] lacking(host, path).node(at(path, rel)) is None,
        forall|other: Seq<char>, rel: Seq<Seq<char>>|
            other != path ==> #[trigger] lacking(host, path).node(at(other, rel)) == host.node(
                at(other, rel),
            ),
{
    let w0 = world(begin_delete(path), host);
    assert(get(host.roots[path], Seq::empty()) == Some(host.roots[path]));
    let w1 = advance(w0);
    run_one(w0);
    let w2 = advance(w1);
    run_next(w0, 1);
    let w3 = advance(w2);
    run_next(w0, 2);
    assert(run(w0, 3).host == lacking(host, path));
}

/// Deleting a path that does not exist fails and leaves the host as it was.
pub proof fn delete_needs_path(host: Host, path: Seq<char>)
    requires
        !host.roots.contains_key(path),
    ensures
        ends(
            world(begin_delete(path), host),
            failure(ErrorKind::NotFound, path_missing(path)),
            host,
        ),
{
    let w0 = world(begin_delete(path), host);
    let w1 = advance(w0);
    run_one(w0);
    assert(run(w0, 1).host == host);
}

/// Listing a directory hands out its entries in the order of the host,
/// truncated to the limit if one is given, and leaves the host as it was.
pub proof fn list_hands_out_entries(host: Host, path: Seq<char>, limit: Option<usize>)
    requires
        host.node(top(path)) is Some,
        host.node(top(path))->Some_0 is Dir,
    ensures
        ends(
            world(begin_list(path, limit), host),
            OutcomeView::Entries(
                truncated(
                    entries(items_of(host.node(top(path))->Some_0->Dir_0, top(path))),
                    limit,
                ),
            ),
            host,
        ),
{
    let w0 = world(begin_list(path, limit), host);
    let items = items_of(host.node(top(path))->Some_0->Dir_0, top(path));
    assert(all_entries(items));
    listed_is_prefix(items, limit);
    let w1 = advance(w0);
    run_one(w0);
    let w2 = advance(w1);
    run_next(w0, 1);
    assert(run(w0, 2).host == host);
}

/// Listing a path that does not exist fails and leaves the host as it was.
pub proof fn list_needs_path(host: Host, path: Seq<char>, limit: Option<usize>)
    requires
        !host.roots.contains_key(path),
    ensures
        ends(
            world(begin_list(path, limit), host),
            failure(ErrorKind::NotFound, dir_missing()),
            host,
        ),
{
    let w0 = world(begin_list(path, limit), host);
    let w1 = advance(w0);
    run_one(w0);
    assert(run(w0, 1).host == host);
}

/// Whether an action is known to leave everything at and below the root
/// `path` as it is. Of a program that is run nothing is known.
pub open spec fn spares(action: ActionView, path: Seq<char>) -> bool {
    match action {
        ActionView::RemoveDirAll(loc) => loc.root != path,
        ActionView::RemoveFile(loc) => loc.root != path,
        ActionView::CopyFile { from, to } => to.root != path,
        ActionView::CreateDirAll(loc) => loc.root != path,
        ActionView::Rename { from, to } => from.root != path && to.root != path,
        ActionView::HardLink { from, to } => to.root != path,
        ActionView::SetReadonly { path: loc, readonly } => loc.root != path,
        ActionView::Symlink { target, link, kind } => link.root != path,
        ActionView::CreateParentDirs(loc) => loc.root != path,
        ActionView::Run { program, args } => false,
        _ => true,
    }
}

/// On every host, whatever it replies, a copy never asks for a change at or
/// below its source.
pub proof fn copy_spares_source(
    job: JobView,
    src: Seq<char>,
    dst: Seq<char>,
    overwrite: bool,
    reply: ReplyView,
)
    requires
        job.op == (OpView::Copy { src, dst, overwrite }),
        src != dst,
    ensures
        spares(begin_copy(src, dst, overwrite).1, src),
        spares(next(job, reply).1, src),
{
}

/// On every host, a move whose step failed does not go on to change its
/// source: a failed rename is followed by a look at the source, every other
/// failure ends the move with an error.
pub proof fn move_spares_source_on_failure(
    job: JobView,
    src: Seq<char>,
    dst: Seq<char>,
    overwrite: bool,
    message: Seq<char>,
)
    requires
        job.op == (OpView::Move { src, dst, overwrite }),
    ensures
        spares(next(job, ReplyView::Failed(message)).1, src),
        job.phase is Renaming ==> next(job, ReplyView::Failed(message)).1 == ActionView::Probe(
            top(src),
        ),
        !(job.phase is Renaming) ==> (next(job, ReplyView::Failed(message)).1
            matches ActionView::Finish(outcome) && outcome is Failed),
{
}

/// On every host, every success has its flag set, and a success carries a
/// note only where the job had asked for the removal of its source after
/// copying it. Only a move ever asks for that, and never in reply to a
/// failure.
pub proof fn note_tells_of_fallback(job: JobView, reply: ReplyView)
    ensures
        next(job, reply).1 matches ActionView::Finish(OutcomeView::Done(result)) ==> result.ok && (
        result.msg is Some ==> job.phase is SourceRemove && reply is Done),
        next(job, reply).0.phase is SourceRemove ==> job.op is Move && !(reply is Failed),
{
}

/// On every host, a junction is made by one command: once the ancestors of
/// the link are there, the job asks for the command interpreter to run
/// `mklink /J` with the link before the target, and it succeeds exactly when
/// that command did.
pub proof fn junction_runs_one_command(
    job: JobView,
    target: Seq<char>,
    link: Seq<char>,
    success: bool,
    stdout: Seq<char>,
    stderr: Seq<char>,
)
    requires
        job.op == (OpView::Junction { target, link }),
    ensures
        job.phase is JunctionParent ==> next(job, ReplyView::Done).1 == (ActionView::Run {
            program: "cmd"@,
            args: seq!["/C"@, "mklink"@, "/J"@, link, target],
        }) && next(job, ReplyView::Done).0.phase is JunctionLink,
        job.phase is JunctionLink ==> (next(
            job,
            ReplyView::Output { success, stdout, stderr },
        ).1 == ActionView::Finish(OutcomeView::Done(plain_success())) <==> success),
        job.phase is JunctionLink ==> next(job, ReplyView::Output { success, stdout, stderr }).1
            is Finish,
{
}

/// Whether an outcome has the shape that the operation hands to its caller.
pub open spec fn fits(op: OpView, outcome: OutcomeView) -> bool {
    outcome is Failed || match op {
        OpView::ListDir { path, limit } => outcome is Entries,
        OpView::ListDrives => outcome is Drives,
        _ => outcome is Done,
    }
}

/// On every host, the outcome of a job has the shape of its operation.
pub proof fn outcome_fits(job: JobView, reply: ReplyView)
    ensures
        next(job, reply).1 matches ActionView::Finish(outcome) ==> fits(job.op, outcome),
        next(job, reply).0.op == job.op,
{
}

} // verus!

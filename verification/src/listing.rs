//! Directory listings: which of the items that the host read are handed to
//! the caller, and when a listing fails instead.

use vstd::prelude::*;

use crate::host::FileEntry;
use crate::host::FileEntryView;
use crate::host::Item;
use crate::host::ItemView;
use crate::outcome::entries_view;

verus! {

/// Whether `have` entries satisfy the limit.
pub open spec fn full(limit: Option<usize>, have: nat) -> bool {
    limit matches Some(n) && have >= n
}

/// The listing that results from `items[j..]` when `acc` was collected before:
/// entries are kept in order until the limit is reached. An item that the
/// host could not read, or whose kind it could not tell, fails the listing
/// with the host's message, unless the limit was reached before it.
pub open spec fn gather(
    items: Seq<ItemView>,
    limit: Option<usize>,
    j: int,
    acc: Seq<FileEntryView>,
) -> Result<Seq<FileEntryView>, Seq<char>>
    decreases items.len() - j,
{
    if j < 0 || j >= items.len() || full(limit, acc.len()) {
        Ok(acc)
    } else {
        match items[j] {
            ItemView::Entry(e) => gather(items, limit, j + 1, acc.push(e)),
            ItemView::Unreadable(message) => Err(message),
            ItemView::Untyped(message) => Err(message),
        }
    }
}

/// The listing of a directory whose items are `items`, truncated to `limit`
/// entries if a limit is given.
pub open spec fn listed(items: Seq<ItemView>, limit: Option<usize>) -> Result<
    Seq<FileEntryView>,
    Seq<char>,
> {
    gather(items, limit, 0, Seq::empty())
}

/// The first `limit` of `all`, or all of them without a limit.
pub open spec fn truncated(all: Seq<FileEntryView>, limit: Option<usize>) -> Seq<FileEntryView> {
    match limit {
        Some(n) if n < all.len() => all.take(n as int),
        _ => all,
    }
}

/// Whether every item is an entry.
pub open spec fn all_entries(items: Seq<ItemView>) -> bool {
    forall|i: int| 0 <= i < items.len() ==> items[i] is Entry
}

/// The entries of items that are all entries.
pub open spec fn entries(items: Seq<ItemView>) -> Seq<FileEntryView> {
    Seq::new(items.len(), |i: int| items[i]->Entry_0)
}

proof fn gather_bounded(items: Seq<ItemView>, limit: Option<usize>, j: int, acc: Seq<FileEntryView>)
    requires
        limit matches Some(n) ==> acc.len() <= n,
    ensures
        gather(items, limit, j, acc) matches Ok(v) ==> (limit matches Some(n) ==> v.len() <= n),
    decreases items.len() - j,
{
    if j < 0 || j >= items.len() || full(limit, acc.len()) {
    } else {
        match items[j] {
            ItemView::Entry(e) => gather_bounded(items, limit, j + 1, acc.push(e)),
            ItemView::Unreadable(_) => {},
            ItemView::Untyped(_) => {},
        }
    }
}

proof fn gather_prefix(items: Seq<ItemView>, limit: Option<usize>, j: int, acc: Seq<FileEntryView>)
    requires
        all_entries(items),
        0 <= j <= items.len(),
        limit matches Some(n) ==> j <= n,
        acc == entries(items).take(j),
    ensures
        gather(items, limit, j, acc) == Ok::<Seq<FileEntryView>, Seq<char>>(
            truncated(entries(items), limit),
        ),
    decreases items.len() - j,
{
    let all = entries(items);
    if j >= items.len() {
        assert(all.take(j) =~= all);
    } else if full(limit, acc.len()) {
        assert(all.take(j) =~= all.take(limit->Some_0 as int));
    } else {
        assert(all.take(j).push(items[j]->Entry_0) =~= all.take(j + 1));
        gather_prefix(items, limit, j + 1, acc.push(items[j]->Entry_0));
    }
}

/// A listing never holds more entries than the limit allows.
pub proof fn listed_within_limit(items: Seq<ItemView>, limit: usize)
    ensures
        listed(items, Some(limit)) matches Ok(v) ==> v.len() <= limit,
{
    gather_bounded(items, Some(limit), 0, Seq::empty());
}

/// Where the host could read and type every item, the listing is the first
/// `limit` entries in host order, or all of them without a limit.
pub proof fn listed_is_prefix(items: Seq<ItemView>, limit: Option<usize>)
    requires
        all_entries(items),
    ensures
        listed(items, limit) == Ok::<Seq<FileEntryView>, Seq<char>>(
            truncated(entries(items), limit),
        ),
{
    assert(entries(items).take(0) =~= Seq::<FileEntryView>::empty());
    gather_prefix(items, limit, 0, Seq::empty());
}

/// The message of an item that is a failure.
pub open spec fn failure_of(item: ItemView) -> Option<Seq<char>> {
    match item {
        ItemView::Entry(_) => None,
        ItemView::Unreadable(message) => Some(message),
        ItemView::Untyped(message) => Some(message),
    }
}

proof fn gather_fails(
    items: Seq<ItemView>,
    limit: Option<usize>,
    j: int,
    acc: Seq<FileEntryView>,
    k: int,
)
    requires
        0 <= j <= k < items.len(),
        forall|i: int| 0 <= i < k ==> items[i] is Entry,
        failure_of(items[k]) is Some,
        acc.len() == j,
        !full(limit, k as nat),
    ensures
        gather(items, limit, j, acc) == Err::<Seq<FileEntryView>, Seq<char>>(
            failure_of(items[k])->Some_0,
        ),
    decreases k - j,
{
    if j < k {
        gather_fails(items, limit, j + 1, acc.push(items[j]->Entry_0), k);
    }
}

/// No failure of the host is passed over: where the first item that is not
/// an entry comes before the limit is reached, the listing fails with the
/// message of that item.
pub proof fn listed_surfaces_failure(items: Seq<ItemView>, limit: Option<usize>, k: int)
    requires
        0 <= k < items.len(),
        forall|i: int| 0 <= i < k ==> items[i] is Entry,
        failure_of(items[k]) is Some,
        !full(limit, k as nat),
    ensures
        listed(items, limit) == Err::<Seq<FileEntryView>, Seq<char>>(
            failure_of(items[k])->Some_0,
        ),
{
    gather_fails(items, limit, 0, Seq::empty(), k);
}

/// Whether a listing that holds `have` entries has reached its limit. A host
/// that reads a directory entry by entry may stop as soon as this holds.
pub fn reached(limit: Option<usize>, have: usize) -> (b: bool)
    ensures
        b == full(limit, have as nat),
{
    match limit {
        Some(n) => have >= n,
        None => false,
    }
}

impl FileEntry {
    /// A copy of the entry.
    pub fn duplicate(&self) -> (r: FileEntry)
        ensures
            r@ == self@,
    {
        FileEntry { name: self.name.clone(), is_dir: self.is_dir, path: self.path.clone() }
    }
}

/// Selects the entries of a directory listing from what the host read.
pub fn collect(items: &Vec<Item>, limit: Option<usize>) -> (r: Result<Vec<FileEntry>, String>)
    ensures
        entries_view(r) == listed(items.deep_view(), limit),
{
    let mut out: Vec<FileEntry> = Vec::new();
    let mut j: usize = 0;
    assert(out.deep_view() =~= Seq::<FileEntryView>::empty());
    while j < items.len()
        invariant
            j <= items.len(),
            listed(items.deep_view(), limit) == gather(
                items.deep_view(),
                limit,
                j as int,
                out.deep_view(),
            ),
        decreases items.len() - j,
    {
        if reached(limit, out.len()) {
            return Ok(out);
        }
        assert(items.deep_view()[j as int] == items[j as int]@);
        match &items[j] {
            Item::Entry(e) => {
                let ghost before = out.deep_view();
                out.push(e.duplicate());
                assert(out.deep_view() =~= before.push(e@));
            },
            Item::Unreadable(message) => {
                return Err(message.clone());
            },
            Item::Untyped(message) => {
                return Err(message.clone());
            },
        }
        j = j + 1;
    }
    Ok(out)
}

} // verus!

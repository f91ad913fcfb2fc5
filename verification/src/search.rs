//! The search for a file below some directories. The search says which directory to list
//! next, and is told what is in it.

use crate::text::same_text;
use vstd::prelude::*;

verus! {

/// What an entry of a directory is.
#[derive(Clone, Copy, Debug, PartialEq, Eq, Structural)]
pub enum EntryKind {
    /// A link to something else.
    Symlink,
    /// A directory.
    Directory,
    /// A file.
    File,
    /// Something else.
    Other,
}

/// An entry of a directory.
#[derive(Debug)]
pub struct DirEntry {
    /// The number by which its path is known.
    pub key: u64,
    /// Its name.
    pub name: String,
    /// What it is.
    pub kind: EntryKind,
}

/// What a [`DirEntry`] says.
pub struct EntryView {
    /// The number by which its path is known.
    pub key: u64,
    /// Its name.
    pub name: Seq<char>,
    /// What it is.
    pub kind: EntryKind,
}

impl View for DirEntry {
    type V = EntryView;

    open spec fn view(&self) -> EntryView {
        EntryView { key: self.key, name: self.name@, kind: self.kind }
    }
}

/// What a list of entries says.
pub open spec fn entries_view(entries: Seq<DirEntry>) -> Seq<EntryView> {
    entries.map_values(|e: DirEntry| e@)
}

/// The directories of a file system, each with its entries if it can be listed.
pub type Tree = spec_fn(u64) -> Seq<EntryView>;

/// The first file of this name below a directory, which lies at this depth: the entries are
/// taken in order, a directory with all that is below it before the entry that follows it.
/// Links are not followed, and nothing deeper than `max_depth` is listed.
pub open spec fn file_below(
    tree: Tree,
    target: Seq<char>,
    max_depth: int,
    dir: u64,
    depth: int,
) -> Option<u64>
    decreases max_depth - depth, 1int, 0int,
{
    if depth > max_depth {
        None
    } else {
        file_among(tree, target, max_depth, tree(dir), depth)
    }
}

/// The first file of this name among the entries of a directory at this depth.
pub open spec fn file_among(
    tree: Tree,
    target: Seq<char>,
    max_depth: int,
    entries: Seq<EntryView>,
    depth: int,
) -> Option<u64>
    decreases max_depth - depth, 0int, entries.len(),
{
    if entries.len() == 0 || depth > max_depth {
        None
    } else {
        let first = match entries[0].kind {
            EntryKind::Symlink => None,
            EntryKind::Directory => if depth + 1 > max_depth {
                None
            } else {
                file_below(tree, target, max_depth, entries[0].key, depth + 1)
            },
            EntryKind::File => if entries[0].name == target {
                Some(entries[0].key)
            } else {
                None
            },
            EntryKind::Other => None,
        };
        match first {
            Some(key) => Some(key),
            None => file_among(tree, target, max_depth, entries.drop_first(), depth),
        }
    }
}

/// The first file of this name below one of the directories, in their order.
pub open spec fn file_below_any(
    tree: Tree,
    target: Seq<char>,
    max_depth: int,
    dirs: Seq<u64>,
) -> Option<u64>
    decreases dirs.len(),
{
    if dirs.len() == 0 {
        None
    } else {
        match file_below(tree, target, max_depth, dirs[0], 1) {
            Some(key) => Some(key),
            None => file_below_any(tree, target, max_depth, dirs.drop_first()),
        }
    }
}

/// Something that the search still has to look at: an entry of a directory at this depth.
pub struct PendingView {
    /// The entry.
    pub entry: EntryView,
    /// The depth at which its own entries would lie.
    pub depth: int,
}

/// The first file of this name in or below what is still to be looked at.
pub open spec fn file_pending(
    tree: Tree,
    target: Seq<char>,
    max_depth: int,
    pending: Seq<PendingView>,
) -> Option<u64>
    decreases pending.len(),
{
    if pending.len() == 0 {
        None
    } else {
        match file_in(tree, target, max_depth, pending[0]) {
            Some(key) => Some(key),
            None => file_pending(tree, target, max_depth, pending.drop_first()),
        }
    }
}

/// The first file of this name in or below one thing that is to be looked at.
pub open spec fn file_in(
    tree: Tree,
    target: Seq<char>,
    max_depth: int,
    p: PendingView,
) -> Option<u64> {
    match p.entry.kind {
        EntryKind::Symlink => None,
        EntryKind::Directory => file_below(tree, target, max_depth, p.entry.key, p.depth),
        EntryKind::File => if p.entry.name == target {
            Some(p.entry.key)
        } else {
            None
        },
        EntryKind::Other => None,
    }
}

/// The entries of a directory as things to look at.
pub open spec fn as_pending(entries: Seq<EntryView>, depth: int) -> Seq<PendingView> {
    entries.map_values(|e: EntryView| PendingView { entry: e, depth })
}

/// Something that the search still has to look at.
#[derive(Debug)]
pub struct Pending {
    /// The entry.
    pub entry: DirEntry,
    /// The depth at which its own entries would lie.
    pub depth: usize,
}

/// What the search wants.
#[derive(Clone, Copy, Debug, PartialEq, Eq, Structural)]
pub enum SearchStep {
    /// The entries of this directory.
    List(u64),
    /// Nothing more: this is the file.
    Found(u64),
    /// Nothing more: there is no such file.
    NotFound,
}

/// A search under way.
#[derive(Debug)]
pub struct FileSearch {
    /// The name of the file.
    pub target: String,
    /// How deep the search goes.
    pub max_depth: usize,
    /// What it still has to look at, the next thing last.
    pub pending: Vec<Pending>,
    /// The depth of the directory that is being listed.
    pub depth: usize,
}

impl View for FileSearch {
    type V = Seq<PendingView>;

    open spec fn view(&self) -> Seq<PendingView> {
        Seq::new(
            self.pending@.len(),
            |i: int|
                PendingView {
                    entry: self.pending@[self.pending@.len() - 1 - i].entry@,
                    depth: self.pending@[self.pending@.len() - 1 - i].depth as int,
                },
        )
    }
}

impl FileSearch {
    /// What the search will come to in this file system.
    pub open spec fn outcome(&self, tree: Tree) -> Option<u64> {
        file_pending(tree, self.target@, self.max_depth as int, self@)
    }

    /// Begins a search below some directories, none deeper than `max_depth` below them.
    pub fn new(base_dirs: &Vec<u64>, target_file: &str, max_depth: usize) -> (r: FileSearch)
        ensures
            r.target@ == target_file@,
            r.max_depth == max_depth,
            forall|tree: Tree| #[trigger]
                r.outcome(tree) == file_below_any(
                    tree,
                    target_file@,
                    max_depth as int,
                    base_dirs@,
                ),
    {
        let mut pending: Vec<Pending> = Vec::new();
        let mut i: usize = base_dirs.len();
        while i > 0
            invariant
                i <= base_dirs@.len(),
                pending@.len() == base_dirs@.len() - i,
                forall|k: int|
                    #![trigger pending@[k]]
                    0 <= k < pending@.len() ==> pending@[k].entry.key == base_dirs@[base_dirs@.len()
                        - 1 - k] && pending@[k].entry.kind is Directory && pending@[k].depth == 1,
            decreases i,
        {
            i = i - 1;
            pending.push(
                Pending {
                    entry: DirEntry {
                        key: base_dirs[i],
                        name: "".to_owned(),
                        kind: EntryKind::Directory,
                    },
                    depth: 1,
                },
            );
        }
        let r: FileSearch = FileSearch {
            target: target_file.to_owned(),
            max_depth,
            pending,
            depth: 0,
        };
        assert forall|tree: Tree| #[trigger] r.outcome(tree) == file_below_any(
            tree,
            target_file@,
            max_depth as int,
            base_dirs@,
        ) by {
            lemma_bases(tree, target_file@, max_depth as int, base_dirs@, r@);
        }
        r
    }

    /// Goes on until a directory has to be listed or the search is over.
    pub fn step(&mut self) -> (r: SearchStep)
        ensures
            final(self).target == old(self).target,
            final(self).max_depth == old(self).max_depth,
            match r {
                SearchStep::Found(key) => forall|tree: Tree| #[trigger]
                    old(self).outcome(tree) == Some(key),
                SearchStep::NotFound => forall|tree: Tree| #[trigger]
                    old(self).outcome(tree) is None,
                SearchStep::List(dir) => final(self).depth <= final(self).max_depth && forall|
                    tree: Tree,
                | #[trigger]
                    old(self).outcome(tree) == file_pending(
                        tree,
                        old(self).target@,
                        old(self).max_depth as int,
                        as_pending(tree(dir), final(self).depth + 1) + final(self)@,
                    ),
            },
    {
        let ghost start = *self;
        while self.pending.len() > 0
            invariant
                self.target == start.target,
                self.max_depth == start.max_depth,
                *old(self) == start,
                forall|tree: Tree| #[trigger]
                    start.outcome(tree) == file_pending(
                        tree,
                        start.target@,
                        start.max_depth as int,
                        self@,
                    ),
            decreases self.pending@.len(),
        {
            let ghost before = self@;
            let ghost count = self.pending@.len();
            let last: usize = self.pending.len() - 1;
            let next: Pending = self.pending.remove(last);
            let ghost seen = PendingView { entry: next.entry@, depth: next.depth as int };
            proof {
                assert(before[0] == seen);
                assert(before.drop_first() =~= self@);
            }
            match next.entry.kind {
                EntryKind::File => {
                    if same_text(next.entry.name.as_str(), self.target.as_str()) {
                        assert forall|tree: Tree| #[trigger]
                            start.outcome(tree) == Some(next.entry.key) by {
                            assert(file_in(
                                tree,
                                start.target@,
                                start.max_depth as int,
                                before[0],
                            ) == Some(next.entry.key));
                        }
                        return SearchStep::Found(next.entry.key);
                    }
                },
                EntryKind::Directory => {
                    if next.depth <= self.max_depth {
                        self.depth = next.depth;
                        assert forall|tree: Tree| #[trigger]
                            start.outcome(tree) == file_pending(
                                tree,
                                start.target@,
                                start.max_depth as int,
                                as_pending(tree(next.entry.key), next.depth + 1) + self@,
                            ) by {
                            lemma_listing(
                                tree,
                                start.target@,
                                start.max_depth as int,
                                tree(next.entry.key),
                                next.depth as int,
                                self@,
                            );
                        }
                        return SearchStep::List(next.entry.key);
                    }
                },
                EntryKind::Symlink => {},
                EntryKind::Other => {},
            }
        }
        SearchStep::NotFound
    }

    /// Takes in the entries of the directory that was asked for; none where it could not be
    /// listed.
    pub fn listed(&mut self, entries: Vec<DirEntry>)
        requires
            old(self).depth < usize::MAX,
        ensures
            final(self).target == old(self).target,
            final(self).max_depth == old(self).max_depth,
            final(self)@ == as_pending(entries_view(entries@), old(self).depth + 1) + old(self)@,
    {
        let ghost all = entries@;
        let ghost below = self.pending@;
        let depth: usize = self.depth + 1;
        let mut rest: Vec<DirEntry> = entries;
        while rest.len() > 0
            invariant
                depth == old(self).depth + 1,
                self.target == old(self).target,
                self.max_depth == old(self).max_depth,
                below == old(self).pending@,
                rest@.len() <= all.len(),
                rest@ == all.take(rest@.len() as int),
                self.pending@.len() == below.len() + all.len() - rest@.len(),
                forall|k: int|
                    #![trigger self.pending@[k]]
                    0 <= k < below.len() ==> self.pending@[k] == below[k],
                forall|k: int|
                    #![trigger self.pending@[k]]
                    below.len() <= k < self.pending@.len() ==> self.pending@[k].entry == all[
                    all.len() - 1 - (k - below.len())] && self.pending@[k].depth == depth,
            decreases rest@.len(),
        {
            let last: usize = rest.len() - 1;
            let entry: DirEntry = rest.remove(last);
            assert(rest@ =~= all.take(rest@.len() as int));
            self.pending.push(Pending { entry, depth });
        }
        assert(self@ =~= as_pending(entries_view(all), depth as int) + old(self)@);
    }
}

proof fn lemma_bases(
    tree: Tree,
    target: Seq<char>,
    max_depth: int,
    dirs: Seq<u64>,
    pending: Seq<PendingView>,
)
    requires
        pending.len() == dirs.len(),
        forall|i: int|
            #![trigger pending[i]]
            0 <= i < dirs.len() ==> pending[i].entry.key == dirs[i] && pending[i].entry.kind
                is Directory && pending[i].depth == 1,
    ensures
        file_pending(tree, target, max_depth, pending) == file_below_any(
            tree,
            target,
            max_depth,
            dirs,
        ),
    decreases dirs.len(),
{
    if dirs.len() > 0 {
        assert(pending[0].entry.key == dirs[0]);
        lemma_bases(tree, target, max_depth, dirs.drop_first(), pending.drop_first());
    }
}

/// Looking at the entries of a directory one after the other, and then at the rest, is
/// looking below the directory and then at the rest.
proof fn lemma_listing(
    tree: Tree,
    target: Seq<char>,
    max_depth: int,
    entries: Seq<EntryView>,
    depth: int,
    rest: Seq<PendingView>,
)
    requires
        depth <= max_depth,
    ensures
        file_pending(tree, target, max_depth, as_pending(entries, depth + 1) + rest) == (
        match file_among(tree, target, max_depth, entries, depth) {
            Some(key) => Some(key),
            None => file_pending(tree, target, max_depth, rest),
        }),
    decreases entries.len(),
{
    let all = as_pending(entries, depth + 1) + rest;
    if entries.len() == 0 {
        assert(all =~= rest);
    } else {
        assert(all[0] == (PendingView { entry: entries[0], depth: depth + 1 }));
        assert(all.drop_first() =~= as_pending(entries.drop_first(), depth + 1) + rest);
        lemma_listing(tree, target, max_depth, entries.drop_first(), depth, rest);
    }
}

/// A directory that lies deeper than the search goes holds nothing for it.
pub proof fn law_search_is_bounded(
    tree: Tree,
    target: Seq<char>,
    max_depth: int,
    dir: u64,
    depth: int,
)
    requires
        depth > max_depth,
    ensures
        file_below(tree, target, max_depth, dir, depth) is None,
{
}

/// Links are not followed: what the search comes to does not depend on what a link leads
/// to.
pub proof fn law_links_are_not_followed(
    tree: Tree,
    target: Seq<char>,
    max_depth: int,
    entries: Seq<EntryView>,
    depth: int,
)
    requires
        entries.len() > 0,
        entries[0].kind is Symlink,
    ensures
        file_among(tree, target, max_depth, entries, depth) == file_among(
            tree,
            target,
            max_depth,
            entries.drop_first(),
            depth,
        ),
{
}

/// One step and the listing that it asks for leave what the search comes to as it was.
pub proof fn law_listing_keeps_outcome(
    before: FileSearch,
    asked: FileSearch,
    after: FileSearch,
    dir: u64,
    tree: Tree,
)
    requires
        asked.target == before.target,
        asked.max_depth == before.max_depth,
        before.outcome(tree) == file_pending(
            tree,
            before.target@,
            before.max_depth as int,
            as_pending(tree(dir), asked.depth + 1) + asked@,
        ),
        after.target == asked.target,
        after.max_depth == asked.max_depth,
        after@ == as_pending(tree(dir), asked.depth + 1) + asked@,
    ensures
        after.outcome(tree) == before.outcome(tree),
{
}

/// Whether this way leads from a directory to a file of this name: each number but the last is
/// the place of a directory among the entries of the one before, and the last is the place of
/// the file.
pub open spec fn leads_to(
    tree: Tree,
    target: Seq<char>,
    entries: Seq<EntryView>,
    way: Seq<int>,
    file: u64,
) -> bool
    decreases way.len(),
{
    way.len() > 0 && 0 <= way[0] < entries.len() && if way.len() == 1 {
        entries[way[0]].kind is File && entries[way[0]].name == target && entries[way[0]].key
            == file
    } else {
        entries[way[0]].kind is Directory && leads_to(
            tree,
            target,
            tree(entries[way[0]].key),
            way.drop_first(),
            file,
        )
    }
}

/// Whether one way is passed before another when the entries are gone through in order.
pub open spec fn passed_before(a: Seq<int>, b: Seq<int>) -> bool
    decreases a.len(),
{
    a.len() > 0 && b.len() > 0 && (a[0] < b[0] || (a[0] == b[0] && passed_before(
        a.drop_first(),
        b.drop_first(),
    )))
}

/// The search among the entries of a directory comes to the file at the end of the first way
/// that leads to one of the name and is not too long, and to none where no way does.
pub proof fn law_search_finds_the_first_file(
    tree: Tree,
    target: Seq<char>,
    max_depth: int,
    entries: Seq<EntryView>,
    depth: int,
) -> (way: Seq<int>)
    requires
        depth <= max_depth,
    ensures
        match file_among(tree, target, max_depth, entries, depth) {
            Some(file) => {
                &&& leads_to(tree, target, entries, way, file)
                &&& depth + way.len() <= max_depth + 1
                &&& forall|other: Seq<int>, found: u64|
                    #[trigger] leads_to(tree, target, entries, other, found) && depth
                        + other.len() <= max_depth + 1 ==> !passed_before(other, way)
            },
            None => forall|other: Seq<int>, found: u64|
                #[trigger] leads_to(tree, target, entries, other, found) ==> depth + other.len()
                    > max_depth + 1,
        },
    decreases max_depth - depth, entries.len(),
{
    if entries.len() == 0 {
        return seq![];
    }
    let first = entries[0];
    let rest = entries.drop_first();
    let below = tree(first.key);
    let deeper = depth + 1 <= max_depth;
    let inner = if first.kind is Directory && deeper {
        law_search_finds_the_first_file(tree, target, max_depth, below, depth + 1)
    } else {
        seq![]
    };
    let outer = law_search_finds_the_first_file(tree, target, max_depth, rest, depth);
    let result = file_among(tree, target, max_depth, entries, depth);
    let in_rest = file_among(tree, target, max_depth, rest, depth);
    let in_first: Option<u64> = match first.kind {
        EntryKind::Directory => if deeper {
            file_among(tree, target, max_depth, below, depth + 1)
        } else {
            None
        },
        EntryKind::File => if first.name == target {
            Some(first.key)
        } else {
            None
        },
        _ => None,
    };
    assert(deeper ==> file_below(tree, target, max_depth, first.key, depth + 1) == file_among(
        tree,
        target,
        max_depth,
        below,
        depth + 1,
    ));
    assert(result == match in_first {
        Some(key) => Some(key),
        None => in_rest,
    });
    // A way either begins in the first entry or goes on among the rest.
    assert forall|other: Seq<int>, found: u64| #[trigger]
        leads_to(tree, target, entries, other, found) && other[0] > 0 implies leads_to(
        tree,
        target,
        rest,
        seq![other[0] - 1] + other.drop_first(),
        found,
    ) by {
        lemma_way_among_the_rest(tree, target, entries, other, found);
    }
    assert forall|other: Seq<int>, found: u64| #[trigger]
        leads_to(tree, target, entries, other, found) && other[0] == 0 && other.len() > 1 implies first.kind is Directory
        && leads_to(tree, target, below, other.drop_first(), found) by {}
    if in_first is Some {
        let way: Seq<int> = if first.kind is File {
            seq![0int]
        } else {
            seq![0int] + inner
        };
        if first.kind is Directory {
            assert(way.drop_first() =~= inner);
        }
        assert forall|other: Seq<int>, found: u64| #[trigger]
            leads_to(tree, target, entries, other, found) && depth + other.len() <= max_depth
                + 1 implies !passed_before(other, way) by {
            if passed_before(other, way) {
                assert(other[0] == 0);
                assert(passed_before(other.drop_first(), way.drop_first()));
                if first.kind is File {
                    assert(way.drop_first().len() == 0);
                } else {
                    assert(way.drop_first() =~= inner);
                    assert(other.len() > 1);
                    assert(leads_to(tree, target, below, other.drop_first(), found));
                }
            }
        }
        way
    } else if in_rest is Some {
        let way = seq![outer[0] + 1] + outer.drop_first();
        lemma_way_among_all(tree, target, entries, outer, result.unwrap());
        assert(way.drop_first() =~= outer.drop_first());
        assert forall|other: Seq<int>, found: u64| #[trigger]
            leads_to(tree, target, entries, other, found) && depth + other.len() <= max_depth
                + 1 implies !passed_before(other, way) by {
            if other[0] > 0 {
                let moved = seq![other[0] - 1] + other.drop_first();
                assert(leads_to(tree, target, rest, moved, found));
                assert(moved.drop_first() =~= other.drop_first());
                assert(moved.len() == other.len());
                if passed_before(other, way) {
                    assert(passed_before(moved, outer));
                }
            } else {
                assert(other.len() > 1);
                assert(leads_to(tree, target, below, other.drop_first(), found));
            }
        }
        way
    } else {
        assert forall|other: Seq<int>, found: u64| #[trigger]
            leads_to(tree, target, entries, other, found) implies depth + other.len() > max_depth
            + 1 by {
            if other[0] > 0 {
                let moved = seq![other[0] - 1] + other.drop_first();
                assert(leads_to(tree, target, rest, moved, found));
                assert(moved.len() == other.len());
            } else {
                assert(other.len() > 1);
                assert(leads_to(tree, target, below, other.drop_first(), found));
            }
        }
        seq![]
    }
}

proof fn lemma_way_among_the_rest(
    tree: Tree,
    target: Seq<char>,
    entries: Seq<EntryView>,
    way: Seq<int>,
    file: u64,
)
    requires
        leads_to(tree, target, entries, way, file),
        way[0] > 0,
    ensures
        leads_to(tree, target, entries.drop_first(), seq![way[0] - 1] + way.drop_first(), file),
{
    let moved = seq![way[0] - 1] + way.drop_first();
    assert(moved.drop_first() =~= way.drop_first());
    assert(entries.drop_first()[moved[0]] == entries[way[0]]);
}

proof fn lemma_way_among_all(
    tree: Tree,
    target: Seq<char>,
    entries: Seq<EntryView>,
    way: Seq<int>,
    file: u64,
)
    requires
        entries.len() > 0,
        leads_to(tree, target, entries.drop_first(), way, file),
    ensures
        leads_to(tree, target, entries, seq![way[0] + 1] + way.drop_first(), file),
{
    let moved = seq![way[0] + 1] + way.drop_first();
    assert(moved.drop_first() =~= way.drop_first());
    assert(entries[moved[0]] == entries.drop_first()[way[0]]);
}

/// The directories are searched in their order, each from the first depth on: the first in
/// which there is such a file decides.
pub proof fn law_first_directory_decides(
    tree: Tree,
    target: Seq<char>,
    max_depth: int,
    dirs: Seq<u64>,
    k: int,
)
    requires
        1 <= max_depth,
        0 <= k <= dirs.len(),
        forall|i: int|
            0 <= i < k ==> file_among(
                tree,
                target,
                max_depth,
                tree(#[trigger] dirs[i]),
                1,
            ) is None,
    ensures
        k == dirs.len() ==> file_below_any(tree, target, max_depth, dirs) is None,
        k < dirs.len() && file_among(tree, target, max_depth, tree(dirs[k]), 1) is Some
            ==> file_below_any(tree, target, max_depth, dirs) == file_among(
            tree,
            target,
            max_depth,
            tree(dirs[k]),
            1,
        ),
    decreases k,
{
    if k > 0 {
        let rest = dirs.drop_first();
        assert(file_among(tree, target, max_depth, tree(dirs[0]), 1) is None);
        assert forall|i: int| 0 <= i < k - 1 implies file_among(
            tree,
            target,
            max_depth,
            tree(#[trigger] rest[i]),
            1,
        ) is None by {
            assert(rest[i] == dirs[i + 1]);
        }
        law_first_directory_decides(tree, target, max_depth, rest, k - 1);
        if k < dirs.len() {
            assert(rest[k - 1] == dirs[k]);
        }
    }
}

} // verus!

//! A bank of resources: the resources in the order in which they were
//! added, and the place of each by the path it was added under.

use vstd::prelude::*;
use crate::text::str_eq;

verus! {

/// The mathematical content of a [`ResourceBank`].
pub struct BankView<R> {
    /// Where the bank is stored.
    pub source: Seq<char>,
    /// Whether the resources are in memory.
    pub loaded: bool,
    /// The place of each resource that has a path, by its path.
    pub paths: Map<Seq<char>, nat>,
    pub resources: Seq<R>,
}

/// Whether `path` is among the first `n` keys.
pub open spec fn has_key(entries: Seq<(String, usize)>, n: int, path: Seq<char>) -> bool {
    exists|i: int| 0 <= i < n && i < entries.len() && (#[trigger] entries[i]).0@ == path
}

/// The places by their paths.
pub open spec fn entries_map(entries: Seq<(String, usize)>) -> Map<Seq<char>, nat> {
    Map::new(
        |path: Seq<char>| has_key(entries, entries.len() as int, path),
        |path: Seq<char>|
            entries[choose|i: int| 0 <= i < entries.len() && (#[trigger] entries[i]).0@ == path].1
                as nat,
    )
}

/// No path stands twice, no place is given twice, and every place is one
/// of the first `count`.
pub open spec fn entries_fit<R>(entries: Seq<(String, usize)>, count: nat) -> bool {
    &&& forall|i: int, j: int|
        0 <= i < j < entries.len() ==> (#[trigger] entries[i]).0@ != (#[trigger] entries[j]).0@
    &&& forall|i: int, j: int|
        0 <= i < j < entries.len() ==> (#[trigger] entries[i]).1 != (#[trigger] entries[j]).1
    &&& forall|i: int| 0 <= i < entries.len() ==> (#[trigger] entries[i]).1 < count
}

/// A place after the resource at `removed` has left: places behind it move
/// up by one.
pub open spec fn moved_up(place: nat, removed: nat) -> nat {
    if place > removed {
        (place - 1) as nat
    } else {
        place
    }
}

/// Resources of one kind, kept in the order in which they were added and
/// found by the path they were added under.
pub struct ResourceBank<R> {
    source: String,
    loaded: bool,
    paths: Vec<(String, usize)>,
    resources: Vec<R>,
}

impl<R> View for ResourceBank<R> {
    type V = BankView<R>;

    closed spec fn view(&self) -> BankView<R> {
        BankView {
            source: self.source@,
            loaded: self.loaded,
            paths: entries_map(self.paths@),
            resources: self.resources@,
        }
    }
}

impl<R> BankView<R> {
    /// Every path leads to a resource, and no two paths to the same.
    pub open spec fn well_formed(self) -> bool {
        &&& forall|path: Seq<char>|
            self.paths.dom().contains(path) ==> #[trigger] self.paths[path] < self.resources.len()
        &&& forall|a: Seq<char>, b: Seq<char>|
            self.paths.dom().contains(a) && self.paths.dom().contains(b) && a != b
                ==> #[trigger] self.paths[a] != #[trigger] self.paths[b]
    }
}

impl<R> ResourceBank<R> {
    /// No path stands twice, and every path leads to a resource of its
    /// own. Every function of the bank keeps this.
    pub closed spec fn well_formed(&self) -> bool {
        entries_fit::<R>(self.paths@, self.resources@.len())
    }

    /// The content of a well-formed bank is well formed.
    pub proof fn lemma_view_well_formed(&self)
        requires
            self.well_formed(),
        ensures
            self@.well_formed(),
    {
        lemma_entries_map(self.paths@);
        let entries = self.paths@;
        let map = entries_map(entries);
        assert forall|a: Seq<char>, b: Seq<char>|
            map.dom().contains(a) && map.dom().contains(b) && a != b implies #[trigger] map[a]
            != #[trigger] map[b] by {
            let i = choose|i: int| 0 <= i < entries.len() && (#[trigger] entries[i]).0@ == a;
            let j = choose|j: int| 0 <= j < entries.len() && (#[trigger] entries[j]).0@ == b;
            lemma_distinct_from_removed(entries, i, j);
        }
        assert forall|path: Seq<char>| map.dom().contains(path) implies #[trigger] map[path]
            < self.resources@.len() by {
            let i = choose|i: int| 0 <= i < entries.len() && (#[trigger] entries[i]).0@ == path;
        }
    }

    /// A bank that is stored at `path` and not in memory yet.
    pub fn new(path: String) -> (bank: Self)
        ensures
            bank@ == (BankView::<R> {
                source: path@,
                loaded: false,
                paths: Map::empty(),
                resources: Seq::empty(),
            }),
            bank.well_formed(),
    {
        let bank = ResourceBank { source: path, loaded: false, paths: Vec::new(), resources: Vec::new() };
        assert(bank@.paths =~= Map::<Seq<char>, nat>::empty());
        bank
    }

    /// Whether the resources are in memory.
    pub fn is_loaded(&self) -> (loaded: bool)
        ensures
            loaded == self@.loaded,
    {
        self.loaded
    }

    /// Where the bank is stored.
    pub fn source(&self) -> (source: &String)
        ensures
            source@ == self@.source,
    {
        &self.source
    }

    /// The resources in the order in which they were added.
    pub fn resources(&self) -> (resources: &Vec<R>)
        ensures
            resources@ == self@.resources,
    {
        &self.resources
    }

    /// Marks the resources as being in memory.
    pub fn set_loaded(&mut self)
        requires
            old(self).well_formed(),
        ensures
            final(self).well_formed(),
            final(self)@ == (BankView { loaded: true, ..old(self)@ }),
    {
        self.loaded = true;
    }

    /// Lets go of the resources: the bank is as it was before it was
    /// filled.
    pub fn unload(&mut self)
        ensures
            final(self).well_formed(),
            final(self)@ == (BankView::<R> {
                source: old(self)@.source,
                loaded: false,
                paths: Map::empty(),
                resources: Seq::empty(),
            }),
    {
        self.loaded = false;
        self.paths = Vec::new();
        self.resources = Vec::new();
        assert(self@.paths =~= Map::<Seq<char>, nat>::empty());
    }

    /// Adds a resource under `path`. A resource that was added under the
    /// same path before stays in the bank and loses the path.
    pub fn push(&mut self, path: String, resource: R)
        requires
            old(self).well_formed(),
        ensures
            final(self).well_formed(),
            final(self)@ == (BankView {
                paths: old(self)@.paths.insert(path@, old(self)@.resources.len()),
                resources: old(self)@.resources.push(resource),
                ..old(self)@
            }),
    {
        proof {
            lemma_entries_map(self.paths@);
        }
        let place: usize = self.resources.len();
        let ghost before = self.paths@;
        match self.position(path.as_str()) {
            Some(k) => {
                self.paths.set(k, (path, place));
            },
            None => {
                self.paths.push((path, place));
            },
        }
        self.resources.push(resource);
        proof {
            let after = self.paths@;
            assert forall|i: int, j: int| 0 <= i < j < after.len() implies (#[trigger] after[i]).0@
                != (#[trigger] after[j]).0@ by {
                if j < before.len() {
                    assert(before[i].0@ != before[j].0@);
                } else {
                    assert(!has_key(before, before.len() as int, path@));
                }
            }
            lemma_entries_map(after);
            assert forall|p: Seq<char>| #[trigger]
                entries_map(after).dom().contains(p) <==> entries_map(before).insert(
                    path@,
                    place as nat,
                ).dom().contains(p) by {
                if has_key(after, after.len() as int, p) {
                    let i = choose|i: int| 0 <= i < after.len() && (#[trigger] after[i]).0@ == p;
                    if p != path@ {
                        assert(before[i].0@ == p);
                    }
                }
                if p != path@ && has_key(before, before.len() as int, p) {
                    let i = choose|i: int| 0 <= i < before.len() && (#[trigger] before[i]).0@ == p;
                    assert(after[i].0@ == p);
                }
                if p == path@ {
                    if has_key(before, before.len() as int, p) {
                        let i = choose|i: int|
                            0 <= i < before.len() && (#[trigger] before[i]).0@ == p;
                        assert(after[i].0@ == p);
                    } else {
                        assert(after[after.len() - 1].0@ == p);
                    }
                }
            }
            assert forall|p: Seq<char>| entries_map(after).dom().contains(p) implies #[trigger]
                entries_map(after)[p] == entries_map(before).insert(path@, place as nat)[p] by {
                let i = choose|i: int| 0 <= i < after.len() && (#[trigger] after[i]).0@ == p;
                if p != path@ {
                    assert(before[i].0@ == p);
                }
            }
            assert(entries_map(after) =~= entries_map(before).insert(path@, place as nat));
        }
    }

    /// Takes the resource that was added under `path` out of the bank. The
    /// resources behind it move up by one place.
    pub fn remove(&mut self, path: &str) -> (r: Option<R>)
        requires
            old(self).well_formed(),
        ensures
            final(self).well_formed(),
            match r {
                Some(resource) => {
                    &&& old(self)@.paths.dom().contains(path@)
                    &&& resource == old(self)@.resources[old(self)@.paths[path@] as int]
                    &&& final(self)@ == (BankView {
                        paths: old(self)@.paths.remove(path@).map_values(
                            |place: nat| moved_up(place, old(self)@.paths[path@]),
                        ),
                        resources: old(self)@.resources.remove(old(self)@.paths[path@] as int),
                        ..old(self)@
                    })
                },
                None => !old(self)@.paths.dom().contains(path@) && final(self)@ == old(self)@,
            },
    {
        proof {
            lemma_entries_map(self.paths@);
        }
        let k: usize = match self.position(path) {
            Some(k) => k,
            None => {
                return None;
            },
        };
        let removed: usize = self.paths[k].1;
        let ghost before = self.paths@;
        let mut kept: Vec<(String, usize)> = Vec::new();
        let mut i: usize = 0;
        while i < self.paths.len()
            invariant
                i <= self.paths.len(),
                k < self.paths.len(),
                before == self.paths@,
                removed == before[k as int].1,
                entries_fit::<R>(before, self.resources@.len()),
                kept.len() == if i <= k {
                    i as int
                } else {
                    i - 1
                },
                forall|j: int|
                    0 <= j < kept.len() ==> {
                        let from = if j < k {
                            j
                        } else {
                            j + 1
                        };
                        &&& (#[trigger] kept@[j]).0@ == before[from].0@
                        &&& kept@[j].1 == moved_up(before[from].1 as nat, removed as nat)
                    },
            decreases self.paths.len() - i,
        {
            if i != k {
                let place: usize = self.paths[i].1;
                assert(before[i as int].1 != before[k as int].1) by {
                    if i < k {
                        assert(before[i as int].1 != before[k as int].1);
                    } else {
                        assert(before[k as int].1 != before[i as int].1);
                    }
                }
                let moved: usize = if place > removed {
                    place - 1
                } else {
                    place
                };
                kept.push((self.paths[i].0.clone(), moved));
            }
            i += 1;
        }
        self.paths = kept;
        let resource = self.resources.remove(removed);
        proof {
            let after = self.paths@;
            let place = removed as nat;
            let origin = |j: int|
                if j < k {
                    j
                } else {
                    j + 1
                };
            assert forall|a: int, b: int| 0 <= a < b < after.len() implies (#[trigger] after[a]).0@
                != (#[trigger] after[b]).0@ && after[a].1 != after[b].1 by {
                assert(before[origin(a)].0@ != before[origin(b)].0@);
                assert(before[origin(a)].1 != before[origin(b)].1);
                assert(before[origin(a)].1 != before[k as int].1 || origin(a) == k);
                assert(before[origin(b)].1 != before[k as int].1 || origin(b) == k);
                lemma_distinct_from_removed(before, k as int, origin(a));
                lemma_distinct_from_removed(before, k as int, origin(b));
            }
            assert forall|a: int| 0 <= a < after.len() implies (#[trigger] after[a]).1
                < self.resources@.len() by {
                lemma_distinct_from_removed(before, k as int, origin(a));
                assert(before[origin(a)].1 < old(self).resources@.len());
            }
            lemma_entries_map(after);
            let expected = entries_map(before).remove(path@).map_values(
                |n: nat| moved_up(n, place),
            );
            assert(entries_map(before)[path@] == place);
            assert forall|p: Seq<char>| #[trigger]
                entries_map(after).dom().contains(p) <==> expected.dom().contains(p) by {
                if has_key(after, after.len() as int, p) {
                    let a = choose|a: int| 0 <= a < after.len() && (#[trigger] after[a]).0@ == p;
                    assert(before[origin(a)].0@ == p);
                    lemma_distinct_from_removed(before, k as int, origin(a));
                }
                if p != path@ && has_key(before, before.len() as int, p) {
                    let b = choose|b: int| 0 <= b < before.len() && (#[trigger] before[b]).0@ == p;
                    let a = if b < k {
                        b
                    } else {
                        b - 1
                    };
                    assert(after[a].0@ == p);
                }
            }
            assert forall|p: Seq<char>| entries_map(after).dom().contains(p) implies #[trigger]
                entries_map(after)[p] == expected[p] by {
                let a = choose|a: int| 0 <= a < after.len() && (#[trigger] after[a]).0@ == p;
                assert(before[origin(a)].0@ == p);
            }
            assert(entries_map(after) =~= expected);
        }
        Some(resource)
    }

    /// The position of `path` among the entries.
    fn position(&self, path: &str) -> (r: Option<usize>)
        ensures
            match r {
                Some(i) => i < self.paths.len() && self.paths@[i as int].0@ == path@,
                None => !has_key(self.paths@, self.paths.len() as int, path@),
            },
    {
        let mut i: usize = 0;
        while i < self.paths.len()
            invariant
                i <= self.paths.len(),
                !has_key(self.paths@, i as int, path@),
            decreases self.paths.len() - i,
        {
            if str_eq(self.paths[i].0.as_str(), path) {
                return Some(i);
            }
            i += 1;
        }
        None
    }

    /// The place of the resource that was added under `path`.
    pub fn index_of(&self, path: &str) -> (place: Option<usize>)
        requires
            self.well_formed(),
        ensures
            match place {
                Some(place) => self@.paths.dom().contains(path@) && self@.paths[path@] == place,
                None => !self@.paths.dom().contains(path@),
            },
    {
        proof {
            lemma_entries_map(self.paths@);
        }
        match self.position(path) {
            Some(i) => Some(self.paths[i].1),
            None => None,
        }
    }
}

/// Among entries that fit, another entry than the `k`-th has another path
/// and another place.
proof fn lemma_distinct_from_removed(entries: Seq<(String, usize)>, k: int, other: int)
    requires
        0 <= k < entries.len(),
        0 <= other < entries.len(),
        other != k,
        forall|i: int, j: int|
            0 <= i < j < entries.len() ==> (#[trigger] entries[i]).0@ != (#[trigger] entries[j]).0@,
        forall|i: int, j: int|
            0 <= i < j < entries.len() ==> (#[trigger] entries[i]).1 != (#[trigger] entries[j]).1,
    ensures
        entries[other].0@ != entries[k].0@,
        entries[other].1 != entries[k].1,
{
    if other < k {
        assert(entries[other].0@ != entries[k].0@);
        assert(entries[other].1 != entries[k].1);
    } else {
        assert(entries[k].0@ != entries[other].0@);
        assert(entries[k].1 != entries[other].1);
    }
}

/// What the map of entries holds, where no path stands twice: each entry
/// under its path, and nothing else.
pub proof fn lemma_entries_map(entries: Seq<(String, usize)>)
    requires
        forall|i: int, j: int|
            0 <= i < j < entries.len() ==> (#[trigger] entries[i]).0@ != (#[trigger] entries[j]).0@,
    ensures
        forall|i: int|
            0 <= i < entries.len() ==> entries_map(entries).dom().contains(
                (#[trigger] entries[i]).0@,
            ) && entries_map(entries)[entries[i].0@] == entries[i].1,
        forall|path: Seq<char>|
            entries_map(entries).dom().contains(path) <==> has_key(
                entries,
                entries.len() as int,
                path,
            ),
{
    assert forall|i: int| 0 <= i < entries.len() implies entries_map(entries).dom().contains(
        (#[trigger] entries[i]).0@,
    ) && entries_map(entries)[entries[i].0@] == entries[i].1 by {
        let path = entries[i].0@;
        assert(has_key(entries, entries.len() as int, path));
        let k = choose|k: int| 0 <= k < entries.len() && (#[trigger] entries[k]).0@ == path;
        if k < i {
            assert(entries[k].0@ != entries[i].0@);
        } else if i < k {
            assert(entries[i].0@ != entries[k].0@);
        }
    }
}

} // verus!

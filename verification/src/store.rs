//! The asset store: tracks in-flight loads and queues their completions.
//!
//! The store is the bridge between an external byte source (the file reader
//! and watcher, which live outside this crate) and the controller. It issues
//! one fresh [`LoadHandle`] per requested load, remembers which handle is the
//! authoritative one for each source location, and queues completions in the
//! order they are delivered until the controller drains them.

use vstd::prelude::*;

use crate::handle::{LoadHandle, LoadState};

verus! {

/// Bookkeeping for one issued load handle.
pub struct LoadRecord {
    /// The source location this load was requested for.
    pub location: String,
    /// Whether the load has already received its one completion.
    pub completed: bool,
}

/// First authoritative entry for `location`, if any.
pub open spec fn auth_lookup(entries: Seq<(String, u64)>, location: Seq<char>) -> Option<u64>
    decreases entries.len(),
{
    if entries.len() == 0 {
        None
    } else if entries[0].0@ == location {
        Some(entries[0].1)
    } else {
        auth_lookup(entries.drop_first(), location)
    }
}

/// Table of loads. Handle identifiers index into `loads`; `authoritative`
/// maps each location to the handle of its most recent request; `queue`
/// holds undrained completions in delivery order.
pub struct Store {
    pub loads: Vec<LoadRecord>,
    pub authoritative: Vec<(String, u64)>,
    pub queue: Vec<(LoadHandle, LoadState)>,
}

impl Store {
    /// Well-formedness: authoritative entries name distinct locations and
    /// point at issued loads of that location; queued completions belong to
    /// issued loads and are never `Pending`.
    pub open spec fn wf(self) -> bool {
        &&& forall|i: int, j: int|
            0 <= i < j < self.authoritative@.len() ==> (#[trigger] self.authoritative@[i]).0@ != (
            #[trigger] self.authoritative@[j]).0@
        &&& forall|i: int|
            0 <= i < self.authoritative@.len() ==> (#[trigger] self.authoritative@[i]).1
                < self.loads@.len() && self.loads@[self.authoritative@[i].1 as int].location@
                == self.authoritative@[i].0@
        &&& forall|i: int|
            0 <= i < self.queue@.len() ==> (#[trigger] self.queue@[i]).0.id < self.loads@.len()
                && !(self.queue@[i].1@ is Pending)
    }

    /// An empty store: no loads issued, nothing queued.
    pub fn new() -> (s: Store)
        ensures
            s.wf(),
            s.loads@.len() == 0,
            s.authoritative@.len() == 0,
            s.queue@.len() == 0,
    {
        Store { loads: Vec::new(), authoritative: Vec::new(), queue: Vec::new() }
    }

    /// Begin an asynchronous fetch of `location`'s bytes. Returns at once
    /// with a fresh handle in pending state; the new handle becomes the
    /// authoritative one for `location`, superseding any earlier handle.
    /// The actual byte fetch happens outside this crate and is reported
    /// back through [`Store::complete_load`].
    pub fn request_load(&mut self, location: String) -> (h: LoadHandle)
        requires
            old(self).wf(),
            old(self).loads@.len() < u64::MAX,
        ensures
            final(self).wf(),
            h.id == old(self).loads@.len(),
            final(self).loads@.len() == old(self).loads@.len() + 1,
            final(self).loads@[h.id as int].location@ == location@,
            final(self).loads@[h.id as int].completed == false,
            forall|i: int|
                0 <= i < old(self).loads@.len() ==> final(self).loads@[i] == old(self).loads@[i],
            auth_lookup(final(self).authoritative@, location@) == Some(h.id),
            forall|loc: Seq<char>|
                loc != location@ ==> auth_lookup(final(self).authoritative@, loc) == auth_lookup(
                    old(self).authoritative@,
                    loc,
                ),
            final(self).queue@ == old(self).queue@,
    {
        let id: u64 = self.loads.len() as u64;
        let h = LoadHandle { id };
        let loc_copy = location.clone();
        self.loads.push(LoadRecord { location: loc_copy, completed: false });
        self.set_authoritative(location, id);
        proof {
            assert forall|i: int| 0 <= i < self.authoritative@.len() implies (
            #[trigger] self.authoritative@[i]).1 < self.loads@.len()
                && self.loads@[self.authoritative@[i].1 as int].location@
                == self.authoritative@[i].0@ by {
                if self.authoritative@[i].0@ == location@ {
                    lemma_auth_lookup_first(self.authoritative@, i, location@);
                } else {
                    let j = choose|j: int|
                        0 <= j < old(self).authoritative@.len() && self.authoritative@[i] == old(
                            self,
                        ).authoritative@[j];
                }
            }
        }
        h
    }

    /// Point `location`'s authoritative entry at `id`, adding the entry if
    /// the location was never requested before.
    fn set_authoritative(&mut self, location: String, id: u64)
        requires
            forall|i: int, j: int|
                0 <= i < j < old(self).authoritative@.len() ==> (
                #[trigger] old(self).authoritative@[i]).0@ != (
                #[trigger] old(self).authoritative@[j]).0@,
        ensures
            forall|i: int, j: int|
                0 <= i < j < final(self).authoritative@.len() ==> (
                #[trigger] final(self).authoritative@[i]).0@ != (
                #[trigger] final(self).authoritative@[j]).0@,
            auth_lookup(final(self).authoritative@, location@) == Some(id),
            forall|loc: Seq<char>|
                loc != location@ ==> auth_lookup(final(self).authoritative@, loc) == auth_lookup(
                    old(self).authoritative@,
                    loc,
                ),
            forall|i: int|
                0 <= i < final(self).authoritative@.len() ==> (
                #[trigger] final(self).authoritative@[i]).0@ == location@ || exists|j: int|
                    0 <= j < old(self).authoritative@.len() && final(self).authoritative@[i] == old(
                        self,
                    ).authoritative@[j],
            final(self).loads == old(self).loads,
            final(self).queue == old(self).queue,
    {
        let n = self.authoritative.len();
        let mut k: usize = 0;
        while k < n
            invariant
                n == self.authoritative@.len(),
                k <= n,
                forall|i: int| 0 <= i < k ==> (#[trigger] self.authoritative@[i]).0@ != location@,
                forall|i: int, j: int|
                    0 <= i < j < self.authoritative@.len() ==> (
                    #[trigger] self.authoritative@[i]).0@ != (
                    #[trigger] self.authoritative@[j]).0@,
                self.authoritative == old(self).authoritative,
                self.loads == old(self).loads,
                self.queue == old(self).queue,
            decreases n - k,
        {
            if self.authoritative[k].0 == location {
                let ghost before = self.authoritative@;
                self.authoritative.set(k, (location, id));
                proof {
                    assert forall|i: int|
                        0 <= i < before.len() && i != k as int implies (
                    #[trigger] before[i]).0@ != location@ by {
                        if i < k as int {
                            assert((before[i]).0@ != (before[k as int]).0@);
                        } else {
                            assert((before[k as int]).0@ != (before[i]).0@);
                        }
                    }
                    lemma_auth_lookup_set(before, self.authoritative@, k as int, location@, id);
                    assert forall|i: int, j: int|
                        0 <= i < j < self.authoritative@.len() implies (
                    #[trigger] self.authoritative@[i]).0@ != (
                    #[trigger] self.authoritative@[j]).0@ by {
                        if i == k as int {
                            assert(before[j].0@ != location@);
                        } else if j == k as int {
                            assert(before[i].0@ != location@);
                        } else {
                            assert(self.authoritative@[i] == before[i]);
                            assert(self.authoritative@[j] == before[j]);
                            assert((before[i]).0@ != (before[j]).0@);
                        }
                    }
                }
                return ;
            }
            k += 1;
        }
        let ghost before = self.authoritative@;
        self.authoritative.push((location, id));
        proof {
            lemma_auth_lookup_absent(before, location@);
            assert forall|loc: Seq<char>| loc != location@ implies auth_lookup(
                self.authoritative@,
                loc,
            ) == auth_lookup(before, loc) by {
                lemma_auth_lookup_push(before, (self.authoritative@.last().0, id), loc);
            }
            lemma_auth_lookup_push(before, (self.authoritative@.last().0, id), location@);
            assert(self.authoritative@ =~= before.push(
                (self.authoritative@.last().0, id),
            ));
        }
    }

    /// Report the one completion of the load `h`: either the fetched bytes
    /// or an I/O failure description. Called by the byte source when its
    /// background work finishes; the completion is queued until the
    /// controller polls.
    pub fn complete_load(&mut self, h: LoadHandle, outcome: LoadState)
        requires
            old(self).wf(),
            h.id < old(self).loads@.len(),
            !old(self).loads@[h.id as int].completed,
            !(outcome@ is Pending),
        ensures
            final(self).wf(),
            final(self).loads@.len() == old(self).loads@.len(),
            final(self).loads@[h.id as int].location == old(self).loads@[h.id as int].location,
            final(self).loads@[h.id as int].completed == true,
            forall|i: int|
                0 <= i < old(self).loads@.len() && i != h.id as int ==> final(self).loads@[i]
                    == old(self).loads@[i],
            final(self).authoritative@ == old(self).authoritative@,
            final(self).queue@ == old(self).queue@.push((h, outcome)),
    {
        let n = self.loads.len();
        let idx = h.id as usize;
        assert(idx < n);
        let location = self.loads[idx].location.clone();
        self.loads.set(idx, LoadRecord { location, completed: true });
        self.queue.push((h, outcome));
    }

    /// Non-blocking drain of all completions delivered since the previous
    /// call, in delivery order.
    pub fn poll_events(&mut self) -> (evs: Vec<(LoadHandle, LoadState)>)
        requires
            old(self).wf(),
        ensures
            final(self).wf(),
            evs@ == old(self).queue@,
            final(self).queue@.len() == 0,
            final(self).loads == old(self).loads,
            final(self).authoritative == old(self).authoritative,
    {
        let mut evs: Vec<(LoadHandle, LoadState)> = Vec::new();
        core::mem::swap(&mut evs, &mut self.queue);
        evs
    }

    /// Whether `h` is still the authoritative handle for the location it
    /// was requested for. A handle superseded by a newer request for the
    /// same location is no longer current, and its completions are ignored
    /// by the controller.
    pub fn is_current(&self, h: LoadHandle) -> (r: bool)
        requires
            self.wf(),
            h.id < self.loads@.len(),
        ensures
            r == (auth_lookup(self.authoritative@, self.loads@[h.id as int].location@) == Some(
                h.id,
            )),
    {
        let n_loads = self.loads.len();
        let idx = h.id as usize;
        assert(idx < n_loads);
        let location = &self.loads[idx].location;
        let n = self.authoritative.len();
        let mut k: usize = 0;
        while k < n
            invariant
                self.wf(),
                h.id < self.loads@.len(),
                location@ == self.loads@[h.id as int].location@,
                n == self.authoritative@.len(),
                k <= n,
                forall|i: int| 0 <= i < k ==> (#[trigger] self.authoritative@[i]).0@ != location@,
            decreases n - k,
        {
            if self.authoritative[k].0.eq(location) {
                proof {
                    lemma_auth_lookup_first(self.authoritative@, k as int, location@);
                }
                return self.authoritative[k].1 == h.id;
            }
            k += 1;
        }
        proof {
            lemma_auth_lookup_absent(self.authoritative@, location@);
        }
        false
    }
}

/// Appending an entry leaves earlier lookups in force: the appended entry is
/// found only where the sequence had no entry for the location.
proof fn lemma_auth_lookup_push(entries: Seq<(String, u64)>, item: (String, u64), loc: Seq<char>)
    ensures
        auth_lookup(entries.push(item), loc) == (if auth_lookup(entries, loc) is Some {
            auth_lookup(entries, loc)
        } else if item.0@ == loc {
            Some(item.1)
        } else {
            None
        }),
    decreases entries.len(),
{
    if entries.len() == 0 {
        assert(auth_lookup(entries, loc) is None);
        assert(entries.push(item)[0] == item);
        let empty = Seq::<(String, u64)>::empty();
        assert(entries.push(item).drop_first() =~= empty);
        if item.0@ == loc {
            assert(auth_lookup(entries.push(item), loc) == Some(item.1));
        } else {
            assert(auth_lookup(entries.push(item), loc) == auth_lookup(empty, loc));
            assert(auth_lookup(empty, loc) is None);
        }
    } else {
        assert(entries.push(item)[0] == entries[0]);
        assert(entries.push(item).drop_first() =~= entries.drop_first().push(item));
        lemma_auth_lookup_push(entries.drop_first(), item, loc);
        if entries[0].0@ == loc {
            assert(auth_lookup(entries.push(item), loc) == Some(entries[0].1));
            assert(auth_lookup(entries, loc) == Some(entries[0].1));
        } else {
            assert(auth_lookup(entries.push(item), loc) == auth_lookup(
                entries.drop_first().push(item),
                loc,
            ));
            assert(auth_lookup(entries, loc) == auth_lookup(entries.drop_first(), loc));
        }
    }
}

/// A location that appears nowhere is not found.
proof fn lemma_auth_lookup_absent(entries: Seq<(String, u64)>, loc: Seq<char>)
    requires
        forall|i: int| 0 <= i < entries.len() ==> (#[trigger] entries[i]).0@ != loc,
    ensures
        auth_lookup(entries, loc) is None,
    decreases entries.len(),
{
    if entries.len() > 0 {
        lemma_auth_lookup_absent(entries.drop_first(), loc);
    }
}

/// Where an entry at `i` holds `loc` and no earlier entry does, the lookup
/// returns that entry's handle.
proof fn lemma_auth_lookup_first(entries: Seq<(String, u64)>, i: int, loc: Seq<char>)
    requires
        0 <= i < entries.len(),
        entries[i].0@ == loc,
        forall|j: int| 0 <= j < i ==> (#[trigger] entries[j]).0@ != loc,
    ensures
        auth_lookup(entries, loc) == Some(entries[i].1),
    decreases entries.len(),
{
    if i > 0 {
        lemma_auth_lookup_first(entries.drop_first(), i - 1, loc);
    }
}

/// Overwriting the entry at position `k`, the unique one whose location is
/// `loc`, redirects `loc`'s lookup to `id` and leaves every other location's
/// lookup unchanged.
proof fn lemma_auth_lookup_set(
    before: Seq<(String, u64)>,
    after: Seq<(String, u64)>,
    k: int,
    loc: Seq<char>,
    id: u64,
)
    requires
        0 <= k < before.len(),
        after.len() == before.len(),
        before[k].0@ == loc,
        forall|i: int| 0 <= i < before.len() && i != k ==> (#[trigger] before[i]).0@ != loc,
        after[k].0@ == loc,
        after[k].1 == id,
        forall|i: int| 0 <= i < before.len() && i != k ==> after[i] == before[i],
    ensures
        auth_lookup(after, loc) == Some(id),
        forall|other: Seq<char>| other != loc ==> auth_lookup(after, other) == auth_lookup(
            before,
            other,
        ),
    decreases before.len(),
{
    if k == 0 {
        assert forall|other: Seq<char>| other != loc implies auth_lookup(after, other)
            == auth_lookup(before, other) by {
            lemma_auth_lookup_congruent(before.drop_first(), after.drop_first(), other);
            assert(auth_lookup(after, other) == auth_lookup(after.drop_first(), other));
            assert(auth_lookup(before, other) == auth_lookup(before.drop_first(), other));
        }
    } else {
        assert(after[0] == before[0]);
        assert forall|i: int|
            0 <= i < before.drop_first().len() && i != k - 1 implies (
        #[trigger] before.drop_first()[i]).0@ != loc by {
            assert(before.drop_first()[i] == before[i + 1]);
        }
        assert forall|i: int|
            0 <= i < before.drop_first().len() && i != k - 1 implies after.drop_first()[i]
            == before.drop_first()[i] by {
            assert(after.drop_first()[i] == after[i + 1]);
            assert(before.drop_first()[i] == before[i + 1]);
        }
        lemma_auth_lookup_set(before.drop_first(), after.drop_first(), k - 1, loc, id);
        assert(before[0].0@ != loc);
        assert(auth_lookup(after, loc) == auth_lookup(after.drop_first(), loc));
        assert forall|other: Seq<char>| other != loc implies auth_lookup(after, other)
            == auth_lookup(before, other) by {
            if after[0].0@ != other {
                assert(auth_lookup(after, other) == auth_lookup(after.drop_first(), other));
                assert(auth_lookup(before, other) == auth_lookup(before.drop_first(), other));
            }
        }
    }
}

/// Lookups agree on sequences whose entries agree.
proof fn lemma_auth_lookup_congruent(a: Seq<(String, u64)>, b: Seq<(String, u64)>, loc: Seq<char>)
    requires
        a.len() == b.len(),
        forall|i: int| 0 <= i < a.len() ==> a[i] == b[i],
    ensures
        auth_lookup(a, loc) == auth_lookup(b, loc),
{
    assert(a =~= b);
}

} // verus!

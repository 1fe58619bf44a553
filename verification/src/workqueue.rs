//! Fixed-capacity, append-only work queues.
//!
//! A `WorkQueue` passes compacted work between pipeline stages: one stage
//! appends items, the next stage reads them by slot. On the device the append
//! is an atomic fetch-and-add handing each producer a distinct slot; here the
//! same interface is modelled sequentially, and `push_all_scheduled` shows
//! that the outcome of a whole dispatch of producers is independent of the
//! order in which they run.

use vstd::prelude::*;

verus! {

/// A bounded queue: `capacity` slots of backing storage, of which the first
/// `occupancy` hold live items. Capacity is fixed at construction; `clear`
/// resets the occupancy without touching the storage.
pub struct WorkQueue<T> {
    pub storage: Vec<T>,
    pub len: u32,
}

impl<T: Copy> WorkQueue<T> {
    /// Number of slots provisioned at construction.
    pub open spec fn capacity(self) -> int {
        self.storage@.len() as int
    }

    /// Number of slots currently holding live items.
    pub open spec fn occupancy(self) -> int {
        self.len as int
    }

    /// The queue's invariant: the occupancy counter never exceeds the
    /// capacity, and the capacity fits the 32-bit counter in the shared
    /// queue header.
    pub open spec fn wf(self) -> bool {
        self.len as int <= self.storage@.len() <= u32::MAX as int
    }

    /// The live items, in slot order.
    pub open spec fn contents(self) -> Seq<T> {
        self.storage@.subrange(0, self.len as int)
    }

    /// All backing slots, live or not.
    pub open spec fn storage_view(self) -> Seq<T> {
        self.storage@
    }

    /// Allocates a queue of `cap` slots, every slot initialised to `fill`,
    /// with occupancy zero.
    pub fn new(cap: u32, fill: T) -> (q: Self)
        ensures
            q.wf(),
            q.capacity() == cap,
            q.occupancy() == 0,
            q.storage_view() == Seq::new(cap as nat, |i: int| fill),
    {
        let mut storage: Vec<T> = Vec::new();
        let mut i: u32 = 0;
        while i < cap
            invariant
                i <= cap,
                storage@.len() == i as int,
                storage@ == Seq::new(i as nat, |j: int| fill),
            decreases cap - i,
        {
            storage.push(fill);
            i = i + 1;
        }
        WorkQueue { storage, len: 0 }
    }

    /// Current occupancy. Stable only once every producer of the current
    /// dispatch has retired; the scheduler reads it at stage boundaries.
    pub fn len(&self) -> (n: u32)
        ensures
            n == self.occupancy(),
    {
        self.len
    }

    /// The provisioned capacity.
    pub fn cap(&self) -> (n: u32)
        requires
            self.wf(),
        ensures
            n == self.capacity(),
    {
        self.storage.len() as u32
    }

    /// Appends `item`, returning the slot it was written to. The queue must
    /// not be at capacity: a push beyond capacity is a contract violation
    /// (mis-provisioned capacity), not a recoverable condition.
    pub fn push(&mut self, item: T) -> (slot: u32)
        requires
            old(self).wf(),
            old(self).occupancy() < old(self).capacity(),
        ensures
            final(self).wf(),
            slot == old(self).occupancy(),
            final(self).capacity() == old(self).capacity(),
            final(self).occupancy() == old(self).occupancy() + 1,
            final(self).storage_view() == old(self).storage_view().update(
                slot as int,
                item,
            ),
            final(self).contents() == old(self).contents().push(item),
    {
        let slot = self.len;
        self.storage.set(slot as usize, item);
        self.len = slot + 1;
        proof {
            assert(self.contents() =~= old(self).contents().push(item));
        }
        slot
    }

    /// Appends `item` if a slot is free; reports `None`, leaving the queue
    /// unchanged, exactly when the queue is already at capacity. This makes
    /// an overflowing push detectable at run time.
    pub fn try_push(&mut self, item: T) -> (r: Option<u32>)
        requires
            old(self).wf(),
        ensures
            final(self).wf(),
            final(self).capacity() == old(self).capacity(),
            match r {
                Some(slot) => {
                    &&& old(self).occupancy() < old(self).capacity()
                    &&& slot == old(self).occupancy()
                    &&& final(self).occupancy() == old(self).occupancy() + 1
                    &&& final(self).storage_view() == old(self).storage_view().update(
                        slot as int,
                        item,
                    )
                    &&& final(self).contents() == old(self).contents().push(item)
                },
                None => {
                    &&& old(self).occupancy() == old(self).capacity()
                    &&& *final(self) == *old(self)
                },
            },
    {
        if (self.len as usize) < self.storage.len() {
            Some(self.push(item))
        } else {
            None
        }
    }

    /// Bounds-checked read of the item in `slot`.
    pub fn item(&self, slot: u32) -> (r: &T)
        requires
            self.wf(),
            slot < self.occupancy(),
        ensures
            *r == self.contents()[slot as int],
    {
        &self.storage[slot as usize]
    }

    /// Bounds-checked mutable access to the item in `slot`. Occupancy and
    /// capacity are unchanged; only that slot of the storage may differ
    /// afterwards.
    pub fn item_mut(&mut self, slot: u32) -> (r: &mut T)
        requires
            old(self).wf(),
            slot < old(self).occupancy(),
        ensures
            *r == old(self).contents()[slot as int],
            final(self).wf(),
            final(self).occupancy() == old(self).occupancy(),
            final(self).storage_view() == old(self).storage_view().update(
                slot as int,
                *final(r),
            ),
    {
        &mut self.storage[slot as usize]
    }

    /// A copy of the live items, in slot order.
    pub fn items(&self) -> (r: Vec<T>)
        requires
            self.wf(),
        ensures
            r@ == self.contents(),
    {
        let mut out: Vec<T> = Vec::new();
        let mut i: u32 = 0;
        while i < self.len
            invariant
                self.wf(),
                i <= self.len,
                out@ == self.contents().subrange(0, i as int),
            decreases self.len - i,
        {
            out.push(self.storage[i as usize]);
            proof {
                assert(out@ =~= self.contents().subrange(0, i + 1));
            }
            i = i + 1;
        }
        proof {
            assert(self.contents().subrange(0, self.len as int) =~= self.contents());
        }
        out
    }

    /// Resets the occupancy to zero for reuse of the allocation. Capacity
    /// and previously written storage are untouched, so no reallocation and
    /// no stale-data exposure: items beyond the new occupancy are no longer
    /// reachable through `item`.
    pub fn clear(&mut self)
        requires
            old(self).wf(),
        ensures
            final(self).wf(),
            final(self).occupancy() == 0,
            final(self).capacity() == old(self).capacity(),
            final(self).storage_view() == old(self).storage_view(),
    {
        self.len = 0;
    }
}

/// A queue of payloads that carry their origin pixel's coordinate.
pub type ItemWorkQueue<T> = WorkQueue<crate::workitems::WorkItem<T>>;

/// The items a dispatch of producers appends, in the order a given
/// interleaving retires them: step `k` of the interleaving is producer
/// `schedule[k]` pushing `items[schedule[k]]`.
pub open spec fn scheduled_order<T>(items: Seq<T>, schedule: Seq<usize>) -> Seq<T> {
    Seq::new(schedule.len(), |k: int| items[schedule[k] as int])
}

/// Producer index `v` retires at some step of the first `n` entries of
/// `schedule`.
pub open spec fn appears(schedule: Seq<usize>, n: int, v: int) -> bool {
    exists|k: int| 0 <= k < n && (#[trigger] schedule[k]) as int == v
}

/// `schedule` is an interleaving of `n` producers: each producer index in
/// `0..n` retires exactly once, in some arbitrary order.
pub open spec fn is_schedule(schedule: Seq<usize>, n: int) -> bool {
    &&& schedule.len() == n
    &&& forall|k: int| 0 <= k < n ==> (#[trigger] schedule[k]) < n
    &&& forall|j: int, k: int|
        0 <= j < k < n ==> #[trigger] schedule[j] != #[trigger] schedule[k]
    &&& forall|v: int| 0 <= v < n ==> #[trigger] appears(schedule, n, v)
}

/// Run-time validation that `schedule` is an interleaving of `n` producers.
pub fn check_schedule(schedule: &Vec<usize>, n: usize) -> (r: bool)
    ensures
        r == is_schedule(schedule@, n as int),
{
    if schedule.len() != n {
        return false;
    }
    let mut seen: Vec<bool> = Vec::new();
    let mut i: usize = 0;
    while i < n
        invariant
            i <= n,
            seen@.len() == i,
            forall|v: int| 0 <= v < i ==> !(#[trigger] seen@[v]),
        decreases n - i,
    {
        seen.push(false);
        i = i + 1;
    }
    let mut k: usize = 0;
    while k < n
        invariant
            n == schedule@.len(),
            seen@.len() == n,
            k <= n,
            forall|j: int| 0 <= j < k ==> (#[trigger] schedule@[j]) < n,
            forall|j1: int, j2: int|
                0 <= j1 < j2 < k ==> #[trigger] schedule@[j1] != #[trigger] schedule@[j2],
            forall|v: int|
                0 <= v < n ==> ((#[trigger] seen@[v]) <==> appears(schedule@, k as int, v)),
        decreases n - k,
    {
        let s = schedule[k];
        if s >= n {
            return false;
        }
        if seen[s] {
            proof {
                let j = choose|j: int|
                    0 <= j < k && (#[trigger] schedule@[j]) as int == s as int;
                assert(schedule@[j] == schedule@[k as int]);
            }
            return false;
        }
        seen.set(s, true);
        proof {
            let ghost k1 = k as int + 1;
            assert forall|v: int|
                0 <= v < n implies ((#[trigger] seen@[v]) <==> appears(schedule@, k1, v)) by {
                if v == s as int {
                    assert(0 <= k < k1 && schedule@[k as int] as int == v);
                } else {
                    if appears(schedule@, k1, v) {
                        let j = choose|j: int|
                            0 <= j < k1 && (#[trigger] schedule@[j]) as int == v;
                        assert(j != k as int);
                        assert(0 <= j < k && schedule@[j] as int == v);
                    }
                    if appears(schedule@, k as int, v) {
                        let j = choose|j: int|
                            0 <= j < k && (#[trigger] schedule@[j]) as int == v;
                        assert(0 <= j < k1 && schedule@[j] as int == v);
                    }
                }
            }
        }
        k = k + 1;
    }
    let mut v: usize = 0;
    while v < n
        invariant
            n == schedule@.len(),
            seen@.len() == n,
            v <= n,
            forall|j: int| 0 <= j < n ==> (#[trigger] schedule@[j]) < n,
            forall|j1: int, j2: int|
                0 <= j1 < j2 < n ==> #[trigger] schedule@[j1] != #[trigger] schedule@[j2],
            forall|u: int|
                0 <= u < n ==> ((#[trigger] seen@[u]) <==> appears(schedule@, n as int, u)),
            forall|u: int| 0 <= u < v ==> #[trigger] seen@[u],
        decreases n - v,
    {
        if !seen[v] {
            return false;
        }
        v = v + 1;
    }
    proof {
        assert forall|u: int| 0 <= u < n implies #[trigger] appears(schedule@, n as int, u) by {
            assert(seen@[u]);
        }
    }
    true
}

/// Push uniqueness: when `n` producers each push one item, the appended run
/// has length exactly `n` and its payloads are exactly the multiset of the
/// producers' items — no slot written twice, no item lost — for every
/// interleaving of the producers.
pub proof fn lemma_push_uniqueness<T>(items: Seq<T>, schedule: Seq<usize>)
    requires
        is_schedule(schedule, items.len() as int),
    ensures
        scheduled_order(items, schedule).len() == items.len(),
        scheduled_order(items, schedule).to_multiset() == items.to_multiset(),
    decreases items.len(),
{
    broadcast use vstd::seq_lib::group_to_multiset_ensures;
    broadcast use vstd::multiset::group_multiset_axioms;

    let n = items.len() as int;
    let t = scheduled_order(items, schedule);
    if n == 0 {
        assert(t =~= items);
    } else {
        assert(appears(schedule, n, n - 1));
        let p = choose|k: int| 0 <= k < n && (#[trigger] schedule[k]) as int == n - 1;
        let items2 = items.drop_last();
        let s2 = schedule.remove(p);
        assert(is_schedule(s2, n - 1)) by {
            assert forall|k: int| 0 <= k < n - 1 implies (#[trigger] s2[k]) < n - 1 by {
                let orig = if k < p { k } else { k + 1 };
                assert(s2[k] == schedule[orig]);
                assert(schedule[orig] as int != n - 1);
            }
            assert forall|v: int| 0 <= v < n - 1 implies #[trigger] appears(s2, n - 1, v) by {
                assert(appears(schedule, n, v));
                let k0 = choose|k: int| 0 <= k < n && (#[trigger] schedule[k]) as int == v;
                let k1 = if k0 < p { k0 } else { k0 - 1 };
                assert(s2[k1] == schedule[k0]);
                assert(0 <= k1 < n - 1 && s2[k1] as int == v);
            }
        }
        lemma_push_uniqueness(items2, s2);
        let t2 = scheduled_order(items2, s2);
        assert(t.remove(p) =~= t2) by {
            assert forall|k: int| 0 <= k < n - 1 implies t.remove(p)[k] == t2[k] by {
                let orig = if k < p { k } else { k + 1 };
                assert(t.remove(p)[k] == t[orig]);
                assert(s2[k] == schedule[orig]);
                assert(s2[k] < n - 1);
            }
        }
        // Removing slot `p` from the run removes one copy of the last item;
        // re-inserting it recovers the full run's multiset.
        assert(t[p] == items[n - 1]);
        assert(t.contains(t[p]));
        assert(t.to_multiset().count(items[n - 1]) > 0);
        assert(t.remove(p).to_multiset() =~= t.to_multiset().remove(items[n - 1]));
        assert(t.to_multiset() =~= t2.to_multiset().insert(items[n - 1]));
        assert(items =~= items2.push(items[n - 1]));
        assert(items.to_multiset() =~= items2.to_multiset().insert(items[n - 1]));
    }
}

/// Performs a whole dispatch of pushes: producer `schedule[k]` retires at
/// step `k`, appending `items[schedule[k]]`. Whatever the interleaving, the
/// occupancy grows by exactly the number of producers and the appended run
/// holds exactly the producers' items.
pub fn push_all_scheduled<T: Copy>(
    q: &mut WorkQueue<T>,
    items: &Vec<T>,
    schedule: &Vec<usize>,
)
    requires
        old(q).wf(),
        is_schedule(schedule@, items@.len() as int),
        old(q).occupancy() + items@.len() <= old(q).capacity(),
    ensures
        final(q).wf(),
        final(q).capacity() == old(q).capacity(),
        final(q).occupancy() == old(q).occupancy() + items@.len(),
        final(q).contents() == old(q).contents() + scheduled_order(items@, schedule@),
        final(q).contents().subrange(
            old(q).occupancy(),
            final(q).occupancy(),
        ).to_multiset() == items@.to_multiset(),
{
    let n = schedule.len();
    let mut k: usize = 0;
    while k < n
        invariant
            q.wf(),
            is_schedule(schedule@, items@.len() as int),
            n == schedule@.len(),
            n == items@.len(),
            k <= n,
            q.capacity() == old(q).capacity(),
            q.occupancy() == old(q).occupancy() + k,
            old(q).occupancy() + n <= old(q).capacity(),
            q.contents() == old(q).contents() + scheduled_order(items@, schedule@).subrange(
                0,
                k as int,
            ),
        decreases n - k,
    {
        let idx = schedule[k];
        proof {
            assert(schedule@[k as int] < n);
        }
        q.push(items[idx]);
        proof {
            assert(q.contents() =~= old(q).contents() + scheduled_order(
                items@,
                schedule@,
            ).subrange(0, k as int + 1));
        }
        k = k + 1;
    }
    proof {
        let t = scheduled_order(items@, schedule@);
        assert(t.subrange(0, n as int) =~= t);
        assert(q.contents().subrange(old(q).occupancy(), q.occupancy()) =~= t);
        lemma_push_uniqueness(items@, schedule@);
    }
}

} // verus!

//! A generational slot pool.
//!
//! Heavyweight resources are owned by pools and addressed through stable
//! handles. A handle carries the slot index together with the generation the
//! slot had when the entry was inserted; removing an entry advances the
//! slot's generation, so a handle that was freed can never again address a
//! live entry, even after the slot index is recycled for a later insertion.

use vstd::prelude::*;

verus! {

/// A stable identifier for one entry of a pool: the slot index and the
/// generation the slot carried when the entry was inserted.
#[derive(Copy, Clone, PartialEq, Eq, Structural, Debug, Hash)]
pub struct Handle {
    pub index: usize,
    pub generation: u64,
}

struct Slot<T> {
    generation: u64,
    value: Option<T>,
}

/// A pool of owned entries addressed by generational handles. Slot indices
/// freed by `remove` are recycled through a free list, and each recycling
/// advances the slot's generation.
pub struct Pool<T> {
    slots: Vec<Slot<T>>,
    free_list: Vec<usize>,
}

impl<T> Pool<T> {
    /// A handle addresses a live entry: its slot exists, carries the same
    /// generation as the handle, and is occupied.
    pub closed spec fn live(self, h: Handle) -> bool {
        &&& h.index < self.slots@.len()
        &&& self.slots@[h.index as int].generation == h.generation
        &&& self.slots@[h.index as int].value is Some
    }

    /// The live entries, keyed by handle.
    pub closed spec fn entries(self) -> Map<Handle, T> {
        Map::new(|h: Handle| self.live(h), |h: Handle| self.slots@[h.index as int].value->0)
    }

    /// The handle addressed a slot whose generation has since advanced:
    /// no entry inserted later can ever be addressed by it again.
    pub closed spec fn retired(self, h: Handle) -> bool {
        &&& h.index < self.slots@.len()
        &&& self.slots@[h.index as int].generation > h.generation
    }

    #[verifier::type_invariant]
    spec fn wf(self) -> bool {
        &&& forall|k: int|
            0 <= k < self.free_list@.len() ==> {
                &&& #[trigger] self.free_list@[k] < self.slots@.len()
                &&& self.slots@[self.free_list@[k] as int].value is None
                &&& self.slots@[self.free_list@[k] as int].generation < u64::MAX
            }
        &&& forall|k1: int, k2: int|
            0 <= k1 < k2 < self.free_list@.len() ==> self.free_list@[k1] != self.free_list@[k2]
        &&& forall|i: int|
            0 <= i < self.slots@.len() && #[trigger] self.slots@[i].value is Some
                ==> self.slots@[i].generation < u64::MAX
    }

    /// A retired handle is not live and addresses no entry.
    pub proof fn lemma_retired_not_live(self, h: Handle)
        requires
            self.retired(h),
        ensures
            !self.live(h),
            !self.entries().dom().contains(h),
    {
    }

    /// Any run of insertions issues pairwise-distinct handles, and the pool
    /// at the end maps each of them to exactly the value inserted under it.
    /// `pools` is the sequence of pool states around the insertions: each
    /// step's clauses are what `insert` ensures.
    pub proof fn lemma_insert_history(pools: Seq<Pool<T>>, handles: Seq<Handle>, values: Seq<T>)
        requires
            pools.len() == handles.len() + 1,
            values.len() == handles.len(),
            forall|i: int|
                0 <= i < handles.len() ==> {
                    &&& !(#[trigger] pools[i]).entries().dom().contains(handles[i])
                    &&& pools[i + 1].entries() == pools[i].entries().insert(handles[i], values[i])
                },
        ensures
            forall|i: int, j: int| 0 <= i < j < handles.len() ==> handles[i] != handles[j],
            forall|i: int|
                0 <= i < handles.len() ==> pools.last().entries().dom().contains(
                    #[trigger] handles[i],
                ) && pools.last().entries()[handles[i]] == values[i],
    {
        Self::lemma_insert_history_prefix(pools, handles, values, handles.len() as int);
        assert forall|i: int, j: int|
            0 <= i < j < handles.len() implies handles[i] != handles[j] by {
            Self::lemma_insert_history_prefix(pools, handles, values, j);
        }
    }

    proof fn lemma_insert_history_prefix(
        pools: Seq<Pool<T>>,
        handles: Seq<Handle>,
        values: Seq<T>,
        k: int,
    )
        requires
            pools.len() == handles.len() + 1,
            values.len() == handles.len(),
            0 <= k <= handles.len(),
            forall|i: int|
                0 <= i < handles.len() ==> {
                    &&& !(#[trigger] pools[i]).entries().dom().contains(handles[i])
                    &&& pools[i + 1].entries() == pools[i].entries().insert(handles[i], values[i])
                },
        ensures
            forall|i: int|
                0 <= i < k ==> pools[k].entries().dom().contains(#[trigger] handles[i])
                    && pools[k].entries()[handles[i]] == values[i],
        decreases k,
    {
        if k > 0 {
            Self::lemma_insert_history_prefix(pools, handles, values, k - 1);
            assert(!pools[k - 1].entries().dom().contains(handles[k - 1]));
            assert(pools[k].entries() == pools[k - 1].entries().insert(
                handles[k - 1],
                values[k - 1],
            ));
            assert forall|i: int|
                0 <= i < k implies pools[k].entries().dom().contains(#[trigger] handles[i])
                && pools[k].entries()[handles[i]] == values[i] by {
                if i < k - 1 {
                    assert(pools[k - 1].entries().dom().contains(handles[i]));
                }
            }
        }
    }

    pub fn new() -> (pool: Self)
        ensures
            pool.entries() == Map::<Handle, T>::empty(),
            forall|h: Handle| !pool.retired(h),
    {
        let pool = Pool { slots: Vec::new(), free_list: Vec::new() };
        proof {
            assert(pool.entries() =~= Map::<Handle, T>::empty());
        }
        pool
    }

    /// Stores `value` in a vacant slot and returns a fresh handle for it:
    /// one that addressed no entry before, is not a recycled older handle,
    /// and leaves every existing entry in place.
    pub fn insert(&mut self, value: T) -> (h: Handle)
        ensures
            !old(self).entries().dom().contains(h),
            !old(self).retired(h),
            final(self).entries() == old(self).entries().insert(h, value),
            forall|g: Handle| old(self).retired(g) ==> final(self).retired(g),
    {
        proof {
            use_type_invariant(&*self);
        }
        let mut slots: Vec<Slot<T>> = Vec::new();
        let mut free_list: Vec<usize> = Vec::new();
        core::mem::swap(&mut free_list, &mut self.free_list);
        core::mem::swap(&mut slots, &mut self.slots);
        let h: Handle;
        match free_list.pop() {
            Some(index) => {
                let generation = slots[index].generation;
                slots[index] = Slot { generation, value: Some(value) };
                h = Handle { index, generation };
            }
            None => {
                let index = slots.len();
                slots.push(Slot { generation: 0, value: Some(value) });
                h = Handle { index, generation: 0 };
            }
        }
        core::mem::swap(&mut slots, &mut self.slots);
        core::mem::swap(&mut free_list, &mut self.free_list);
        proof {
            assert(self.entries() =~= old(self).entries().insert(h, value));
        }
        h
    }

    /// Returns the entry addressed by `h`, or nothing where `h` is stale
    /// or was never issued by this pool.
    pub fn get(&self, h: Handle) -> (r: Option<&T>)
        ensures
            match r {
                Some(v) => self.entries().dom().contains(h) && *v == self.entries()[h],
                None => !self.entries().dom().contains(h),
            },
    {
        if h.index < self.slots.len() {
            let slot = &self.slots[h.index];
            if slot.generation == h.generation {
                match &slot.value {
                    Some(v) => Some(v),
                    None => None,
                }
            } else {
                None
            }
        } else {
            None
        }
    }

    /// Removes and returns the entry addressed by `h`. A live handle is
    /// retired: its slot's generation advances, so `h` never addresses an
    /// entry again, although the slot index itself may be recycled. A stale
    /// handle removes nothing and leaves the pool unchanged.
    pub fn remove(&mut self, h: Handle) -> (r: Option<T>)
        ensures
            match r {
                Some(v) => {
                    &&& old(self).entries().dom().contains(h)
                    &&& v == old(self).entries()[h]
                    &&& final(self).entries() == old(self).entries().remove(h)
                    &&& final(self).retired(h)
                },
                None => {
                    &&& !old(self).entries().dom().contains(h)
                    &&& *final(self) == *old(self)
                },
            },
            forall|g: Handle| old(self).retired(g) ==> final(self).retired(g),
    {
        proof {
            use_type_invariant(&*self);
        }
        if h.index < self.slots.len() && self.slots[h.index].generation == h.generation
            && self.slots[h.index].value.is_some() {
            let mut slots: Vec<Slot<T>> = Vec::new();
            let mut free_list: Vec<usize> = Vec::new();
            core::mem::swap(&mut free_list, &mut self.free_list);
            core::mem::swap(&mut slots, &mut self.slots);
            let mut taken = Slot { generation: h.generation + 1, value: None };
            core::mem::swap(&mut taken, &mut slots[h.index]);
            if h.generation + 1 < u64::MAX {
                // The slot can serve another generation: recycle its index.
                free_list.push(h.index);
            }
            core::mem::swap(&mut slots, &mut self.slots);
            core::mem::swap(&mut free_list, &mut self.free_list);
            proof {
                assert(self.entries() =~= old(self).entries().remove(h));
            }
            taken.value
        } else {
            proof {
                assert(!old(self).entries().dom().contains(h));
            }
            None
        }
    }
}

} // verus!

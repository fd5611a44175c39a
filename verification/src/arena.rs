//! Arena storage for enemies with stable, generation-counted handles.
//! Enemies are created and destroyed continuously, so consumers hold
//! handles, never indices alone: a handle to a destroyed enemy resolves to
//! nothing instead of aliasing a later occupant of the same slot.

use vstd::prelude::*;
use crate::enemy::Enemy;

verus! {

/// A stable reference to an enemy. Valid only while the slot it names
/// still carries the generation it was created with.
#[derive(Clone, Copy, PartialEq, Eq, Structural, Debug)]
pub struct EnemyHandle {
    pub index: usize,
    pub generation: u64,
}

#[derive(Clone, Copy, PartialEq, Eq, Structural, Debug)]
pub struct EnemySlot {
    pub generation: u64,
    pub occupant: Option<Enemy>,
}

pub struct EnemyArena {
    pub slots: Vec<EnemySlot>,
}

impl EnemyArena {
    /// Every stored enemy is well-formed.
    pub open spec fn wf(self) -> bool {
        forall|i: int|
            0 <= i < self.slots@.len() && self.slots@[i].occupant is Some
                ==> (#[trigger] self.slots@[i]).occupant->Some_0.wf()
    }

    /// The handle still names a live enemy.
    pub open spec fn valid(self, h: EnemyHandle) -> bool {
        &&& h.index < self.slots@.len()
        &&& self.slots@[h.index as int].generation == h.generation
        &&& self.slots@[h.index as int].occupant is Some
    }

    /// The enemy a valid handle names.
    pub open spec fn enemy_at(self, h: EnemyHandle) -> Enemy {
        self.slots@[h.index as int].occupant->Some_0
    }

    pub fn new() -> (r: EnemyArena)
        ensures
            r.slots@.len() == 0,
            r.wf(),
    {
        EnemyArena { slots: Vec::new() }
    }

    pub fn slot_count(&self) -> (r: usize)
        ensures
            r == self.slots@.len(),
    {
        self.slots.len()
    }

    /// Copies out the enemy a handle names, or nothing for a stale handle.
    pub fn get(&self, h: EnemyHandle) -> (r: Option<Enemy>)
        ensures
            r is Some <==> self.valid(h),
            self.valid(h) ==> r->Some_0 == self.enemy_at(h),
    {
        if h.index < self.slots.len() {
            let slot = &self.slots[h.index];
            if slot.generation == h.generation {
                slot.occupant
            } else {
                None
            }
        } else {
            None
        }
    }

    /// Replaces the enemy a valid handle names; every other handle keeps
    /// its standing and its enemy.
    pub fn set(&mut self, h: EnemyHandle, e: Enemy)
        requires
            old(self).valid(h),
        ensures
            final(self).slots@.len() == old(self).slots@.len(),
            final(self).valid(h),
            final(self).enemy_at(h) == e,
            forall|h2: EnemyHandle| final(self).valid(h2) == old(self).valid(h2),
            forall|h2: EnemyHandle|
                old(self).valid(h2) && h2 != h ==> final(self).enemy_at(h2) == old(self).enemy_at(
                    h2,
                ),
            old(self).wf() && e.wf() ==> final(self).wf(),
    {
        let generation = self.slots[h.index].generation;
        self.slots.set(h.index, EnemySlot { generation, occupant: Some(e) });
    }

    /// Reads the occupant of a slot by index, for whole-population sweeps.
    pub fn read_slot(&self, i: usize) -> (r: Option<Enemy>)
        requires
            i < self.slots@.len(),
        ensures
            r == self.slots@[i as int].occupant,
    {
        self.slots[i].occupant
    }

    /// Rewrites the occupant of an occupied slot by index, keeping its
    /// generation.
    pub fn write_slot(&mut self, i: usize, e: Enemy)
        requires
            i < old(self).slots@.len(),
            old(self).slots@[i as int].occupant is Some,
        ensures
            final(self).slots@ == old(self).slots@.update(
                i as int,
                EnemySlot { generation: old(self).slots@[i as int].generation, occupant: Some(e) },
            ),
            forall|h2: EnemyHandle| final(self).valid(h2) == old(self).valid(h2),
            old(self).wf() && e.wf() ==> final(self).wf(),
    {
        let generation = self.slots[i].generation;
        self.slots.set(i, EnemySlot { generation, occupant: Some(e) });
    }

    /// Stores a new enemy, reusing a free slot when one exists, and hands
    /// back a fresh handle: no handle issued earlier names the new enemy,
    /// and every live enemy keeps its handle.
    pub fn insert(&mut self, e: Enemy) -> (h: EnemyHandle)
        ensures
            final(self).valid(h),
            final(self).enemy_at(h) == e,
            !old(self).valid(h),
            forall|h2: EnemyHandle| h2 != h ==> final(self).valid(h2) == old(self).valid(h2),
            forall|h2: EnemyHandle|
                old(self).valid(h2) ==> final(self).valid(h2) && final(self).enemy_at(h2) == old(
                    self,
                ).enemy_at(h2),
            old(self).wf() && e.wf() ==> final(self).wf(),
    {
        let n = self.slots.len();
        let mut i: usize = 0;
        while i < n
            invariant
                self.slots@ == old(self).slots@,
                n == self.slots@.len(),
                i <= n,
                forall|j: int|
                    0 <= j < i ==> !((#[trigger] self.slots@[j]).occupant is None
                        && self.slots@[j].generation < u64::MAX),
            decreases n - i,
        {
            let free = self.slots[i].occupant.is_none() && self.slots[i].generation < u64::MAX;
            if free {
                let generation = self.slots[i].generation;
                self.slots.set(i, EnemySlot { generation, occupant: Some(e) });
                return EnemyHandle { index: i, generation };
            }
            i = i + 1;
        }
        self.slots.push(EnemySlot { generation: 0, occupant: Some(e) });
        EnemyHandle { index: n, generation: 0 }
    }

    /// Destroys the enemy a valid handle names. The slot's generation
    /// advances, so the handle (and every copy of it) goes stale while
    /// every other handle keeps its standing and its enemy.
    pub fn remove(&mut self, h: EnemyHandle)
        requires
            old(self).valid(h),
        ensures
            final(self).slots@.len() == old(self).slots@.len(),
            !final(self).valid(h),
            forall|h2: EnemyHandle| h2 != h ==> final(self).valid(h2) == old(self).valid(h2),
            forall|h2: EnemyHandle|
                old(self).valid(h2) && h2 != h ==> final(self).enemy_at(h2) == old(self).enemy_at(
                    h2,
                ),
            old(self).wf() ==> final(self).wf(),
    {
        let generation = self.slots[h.index].generation;
        let next = if generation < u64::MAX {
            generation + 1
        } else {
            generation
        };
        self.slots.set(h.index, EnemySlot { generation: next, occupant: None });
    }
}

} // verus!

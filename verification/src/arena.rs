//! A pre-sized slot arena with generational keys.
//!
//! Slots are reserved first (claiming a key) and filled later, so a caller
//! can quote a stable [`ArenaKey`] in commands before the value exists. A
//! slot's generation changes on every occupancy change, so a stale key never
//! reaches a value it did not name: lookups with an old generation simply
//! return nothing.

use vstd::prelude::*;

verus! {

/// A key naming one slot of an [`Arena`], valid only while the slot's
/// generation matches.
#[derive(Clone, Copy, Debug, PartialEq, Eq, Structural)]
pub struct ArenaKey {
    pub index: usize,
    pub generation: u64,
}

/// Occupancy of one arena slot.
pub enum SlotState<T> {
    /// Nothing is stored and the slot may be reserved.
    Free,
    /// The slot is claimed by an issued key but not yet filled.
    Reserved,
    /// The slot holds a value.
    Occupied(T),
}

/// One slot: its current generation and its occupancy.
pub struct ArenaSlot<T> {
    pub generation: u64,
    pub state: SlotState<T>,
}

/// A fixed-capacity arena of generational slots.
pub struct Arena<T> {
    pub slots: Vec<ArenaSlot<T>>,
}

/// Whether two arenas hold the same slots: equal lengths, generations and
/// occupancy at every position (the stored values may differ).
pub open spec fn arena_same_slots<T>(a: &Arena<T>, b: &Arena<T>) -> bool {
    &&& a.slots@.len() == b.slots@.len()
    &&& forall|i: int|
        0 <= i < a.slots@.len() ==> (#[trigger] b.slots@[i]).generation == a.slots@[i].generation
            && (b.slots@[i].state.is_occupied() <==> a.slots@[i].state.is_occupied())
}

impl<T> SlotState<T> {
    /// Whether this slot state holds a value.
    pub open spec fn is_occupied(&self) -> bool {
        self is Occupied
    }

    /// The stored value; meaningful only when occupied.
    pub open spec fn value(&self) -> T
        recommends
            self.is_occupied(),
    {
        match self {
            SlotState::Occupied(v) => *v,
            _ => arbitrary(),
        }
    }
}

impl<T> Arena<T> {
    /// Number of slots, fixed at construction.
    pub open spec fn capacity(&self) -> nat {
        self.slots@.len()
    }

    /// Whether `key` currently names the value stored in its slot.
    pub open spec fn key_live(&self, key: ArenaKey) -> bool {
        &&& key.index < self.slots@.len()
        &&& self.slots@[key.index as int].generation == key.generation
        &&& self.slots@[key.index as int].state.is_occupied()
    }

    /// Whether `key` names a slot that is reserved for it and still empty.
    pub open spec fn key_reserved(&self, key: ArenaKey) -> bool {
        &&& key.index < self.slots@.len()
        &&& self.slots@[key.index as int].generation == key.generation
        &&& self.slots@[key.index as int].state is Reserved
    }

    /// The value a live key names.
    pub open spec fn value_of(&self, key: ArenaKey) -> T
        recommends
            self.key_live(key),
    {
        self.slots@[key.index as int].state.value()
    }

    /// A fresh arena of `capacity` free slots.
    pub fn new(capacity: usize) -> (r: Arena<T>)
        ensures
            r.slots@.len() == capacity,
            forall|i: int|
                0 <= i < capacity ==> (#[trigger] r.slots@[i]).generation == 0 && r.slots@[i].state is Free,
    {
        let mut slots: Vec<ArenaSlot<T>> = Vec::new();
        let mut i: usize = 0;
        while i < capacity
            invariant
                i <= capacity,
                slots@.len() == i,
                forall|j: int|
                    0 <= j < i ==> (#[trigger] slots@[j]).generation == 0 && slots@[j].state is Free,
            decreases capacity - i,
        {
            slots.push(ArenaSlot { generation: 0, state: SlotState::Free });
            i = i + 1;
        }
        Arena { slots }
    }

    /// Claims the first free slot, if any: its generation advances and the
    /// returned key carries the new generation. Returns nothing exactly when
    /// no slot is free.
    pub fn try_reserve(&mut self) -> (r: Option<ArenaKey>)
        ensures
            final (self).slots@.len() == old(self).slots@.len(),
            match r {
                Some(key) => {
                    &&& key.index < old(self).slots@.len()
                    &&& old(self).slots@[key.index as int].state is Free
                    &&& final (self).key_reserved(key)
                    &&& key.generation == old(self).slots@[key.index as int].generation.wrapping_add(
                        1,
                    )
                    &&& forall|i: int|
                        0 <= i < old(self).slots@.len() && i != key.index ==> final (self).slots@[i]
                            == old(self).slots@[i]
                },
                None => {
                    &&& *final (self) == *old(self)
                    &&& forall|i: int|
                        0 <= i < old(self).slots@.len() ==> !((#[trigger] old(
                            self,
                        ).slots@[i]).state is Free)
                },
            },
    {
        let n = self.slots.len();
        let mut i: usize = 0;
        while i < n
            invariant
                i <= n,
                n == self.slots@.len(),
                *self == *old(self),
                forall|j: int|
                    0 <= j < i ==> !((#[trigger] self.slots@[j]).state is Free),
            decreases n - i,
        {
            let free = matches!(self.slots[i].state, SlotState::Free);
            if free {
                let generation = self.slots[i].generation.wrapping_add(1);
                self.slots[i] = ArenaSlot { generation, state: SlotState::Reserved };
                return Some(ArenaKey { index: i, generation });
            }
            i = i + 1;
        }
        None
    }

    /// Fills a reserved slot with a value. A key that no longer names a
    /// reserved slot is stale and the arena is left unchanged.
    pub fn insert(&mut self, key: ArenaKey, value: T) -> (r: bool)
        ensures
            r == old(self).key_reserved(key),
            final (self).slots@.len() == old(self).slots@.len(),
            r ==> final (self).key_live(key) && final (self).value_of(key) == value && forall|
                i: int,
            |
                0 <= i < old(self).slots@.len() && i != key.index ==> final (self).slots@[i] == old(
                    self,
                ).slots@[i],
            !r ==> *final (self) == *old(self),
    {
        if key.index < self.slots.len() {
            let matches_gen = self.slots[key.index].generation == key.generation;
            let reserved = matches!(self.slots[key.index].state, SlotState::Reserved);
            if matches_gen && reserved {
                self.slots[key.index] = ArenaSlot {
                    generation: key.generation,
                    state: SlotState::Occupied(value),
                };
                return true;
            }
        }
        false
    }

    /// Takes the value a live key names out of the arena, freeing the slot
    /// under a fresh generation. A stale key takes nothing.
    pub fn remove(&mut self, key: ArenaKey) -> (r: Option<T>)
        ensures
            final (self).slots@.len() == old(self).slots@.len(),
            match r {
                Some(v) => {
                    &&& old(self).key_live(key)
                    &&& v == old(self).value_of(key)
                    &&& final (self).slots@[key.index as int].state is Free
                    &&& final (self).slots@[key.index as int].generation == key.generation.wrapping_add(
                        1,
                    )
                    &&& forall|i: int|
                        0 <= i < old(self).slots@.len() && i != key.index ==> final (self).slots@[i]
                            == old(self).slots@[i]
                },
                None => !old(self).key_live(key) && *final (self) == *old(self),
            },
    {
        if key.index < self.slots.len() {
            let matches_gen = self.slots[key.index].generation == key.generation;
            let occupied = matches!(self.slots[key.index].state, SlotState::Occupied(_));
            if matches_gen && occupied {
                let mut taken = ArenaSlot {
                    generation: key.generation.wrapping_add(1),
                    state: SlotState::Free,
                };
                core::mem::swap(&mut self.slots[key.index], &mut taken);
                match taken.state {
                    SlotState::Occupied(v) => {
                        return Some(v);
                    },
                    _ => {
                        return None;
                    },
                }
            }
        }
        None
    }

    /// Whether `key` currently names a stored value.
    pub fn contains(&self, key: ArenaKey) -> (r: bool)
        ensures
            r == self.key_live(key),
    {
        key.index < self.slots.len() && self.slots[key.index].generation == key.generation
            && matches!(self.slots[key.index].state, SlotState::Occupied(_))
    }

    /// Borrows the value a live key names.
    pub fn get(&self, key: ArenaKey) -> (r: &T)
        requires
            self.key_live(key),
        ensures
            *r == self.value_of(key),
    {
        match &self.slots[key.index].state {
            SlotState::Occupied(v) => v,
            _ => unreached(),
        }
    }

    /// Mutably borrows the value a live key names; only that value changes.
    pub fn get_mut(&mut self, key: ArenaKey) -> (r: &mut T)
        requires
            old(self).key_live(key),
        ensures
            *r == old(self).value_of(key),
            final (self).slots@.len() == old(self).slots@.len(),
            final (self).key_live(key),
            final (self).value_of(key) == *final (r),
            forall|i: int|
                0 <= i < old(self).slots@.len() && i != key.index ==> final (self).slots@[i] == old(
                    self,
                ).slots@[i],
            final (self).slots@[key.index as int].generation == old(self).slots@[key.index as int].generation,
    {
        let slot = &mut self.slots[key.index];
        match &mut slot.state {
            SlotState::Occupied(v) => v,
            _ => unreached(),
        }
    }

    /// Number of slots.
    pub fn len(&self) -> (r: usize)
        ensures
            r == self.capacity(),
    {
        self.slots.len()
    }

    /// Whether the slot at `index` holds a value.
    pub fn occupied_at(&self, index: usize) -> (r: bool)
        requires
            index < self.capacity(),
        ensures
            r == self.slots@[index as int].state.is_occupied(),
    {
        matches!(self.slots[index].state, SlotState::Occupied(_))
    }

    /// The key currently naming the slot at `index`.
    pub fn key_at(&self, index: usize) -> (r: ArenaKey)
        requires
            index < self.capacity(),
        ensures
            r.index == index,
            r.generation == self.slots@[index as int].generation,
            self.slots@[index as int].state.is_occupied() ==> self.key_live(r),
    {
        ArenaKey { index, generation: self.slots[index].generation }
    }
}

} // verus!

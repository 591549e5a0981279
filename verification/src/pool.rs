//! The rotating pool of submitted buffers.
//!
//! The mixer may still read a buffer for a while after the next one was
//! created. Each channel therefore keeps its most recent buffers in a small
//! ring; a buffer is given up only when its slot is written again.

use vstd::prelude::*;
use crate::timing::POOL_CAPACITY;

verus! {

/// A submitted buffer: the mixer's handle for it and the instant, in ticks,
/// at which its playback was scheduled to start.
#[derive(Clone, Copy, PartialEq, Eq, Structural, Debug)]
pub struct Retained {
    pub handle: i32,
    pub start: i64,
}

/// A ring of `POOL_CAPACITY` slots, each empty or holding one buffer.
pub struct BufferPool {
    slots: [Option<Retained>; 3],
}

/// The slot written after `slot`.
pub open spec fn next_slot(slot: int) -> int {
    if slot + 1 == POOL_CAPACITY {
        0
    } else {
        slot + 1
    }
}

/// Storing `item` in `slot` of a ring with the contents `slots`.
pub open spec fn stored(slots: Seq<Option<Retained>>, slot: int, item: Retained) -> Seq<Option<Retained>> {
    slots.update(slot, Some(item))
}

impl BufferPool {
    /// The contents, slot by slot.
    pub closed spec fn view(&self) -> Seq<Option<Retained>> {
        self.slots@
    }

    /// A pool has exactly `POOL_CAPACITY` slots, so it never holds more
    /// buffers than that.
    pub proof fn lemma_capacity(&self)
        ensures
            self@.len() == POOL_CAPACITY,
    {
    }

    /// A pool with every slot empty.
    pub fn new() -> (pool: BufferPool)
        ensures
            pool@ == Seq::new(POOL_CAPACITY as nat, |i: int| None::<Retained>),
    {
        let pool = BufferPool { slots: [None, None, None] };
        assert(pool@ =~= Seq::new(POOL_CAPACITY as nat, |i: int| None::<Retained>));
        pool
    }

    /// What `slot` holds.
    pub fn get(&self, slot: usize) -> (held: Option<Retained>)
        requires
            slot < POOL_CAPACITY,
        ensures
            held == self@[slot as int],
    {
        self.slots[slot]
    }

    /// Puts `item` into `slot` and hands back what the slot held, which is
    /// thereby released.
    pub fn store(&mut self, slot: usize, item: Retained) -> (released: Option<Retained>)
        requires
            slot < POOL_CAPACITY,
        ensures
            released == old(self)@[slot as int],
            final(self)@ == stored(old(self)@, slot as int, item),
    {
        let released = self.slots[slot];
        self.slots[slot] = Some(item);
        released
    }
}

/// Rotation keeps the latest buffers: a buffer stored in a slot is still
/// held after the following `POOL_CAPACITY - 1` stores, each into the next
/// slot, when the pool holds exactly the latest `POOL_CAPACITY` buffers;
/// the store after those goes to the first slot again and finds it there.
pub proof fn lemma_rotation_retains(
    slots: Seq<Option<Retained>>,
    slot: int,
    first: Retained,
    second: Retained,
    third: Retained,
)
    requires
        slots.len() == POOL_CAPACITY,
        0 <= slot < POOL_CAPACITY,
    ensures
        ({
            let after_one = stored(slots, slot, first);
            let after_two = stored(after_one, next_slot(slot), second);
            let after_three = stored(after_two, next_slot(next_slot(slot)), third);
            &&& after_one[slot] == Some(first)
            &&& after_two[slot] == Some(first)
            &&& after_three[slot] == Some(first)
            &&& after_three[next_slot(slot)] == Some(second)
            &&& after_three[next_slot(next_slot(slot))] == Some(third)
            &&& next_slot(next_slot(next_slot(slot))) == slot
        }),
{
}

} // verus!

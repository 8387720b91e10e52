//! The handle registry: the leak/reclaim discipline for passing
//! ownership of native allocations across the boundary as opaque
//! integer handles.
//!
//! A leak stores an owned value and hands out a positive 64-bit handle;
//! a redeem gives the ownership back and retires the handle, exactly
//! once.  A handle that no leak produced, that was already reclaimed, or
//! that is zero or negative is rejected with a typed error instead of
//! being dereferenced: a slot table with never-reused slots stands in
//! for raw leaked addresses, so a stale handle is a checked condition,
//! not undefined behavior.

use crate::errors::BridgeError;
use vstd::prelude::*;

verus! {

/// A registry of leaked allocations of one kind.
///
/// Its model is the slot table: slot `h - 1` holds the allocation that
/// handle `h` refers to, or nothing once `h` was reclaimed.  Slots are
/// never reused, so a handle stays retired forever.
pub struct HandleRegistry<T> {
    slots: Vec<Option<T>>,
}

/// True when `handle` refers to a leaked, not yet reclaimed allocation
/// of the table.
pub open spec fn spec_live<T>(table: Seq<Option<T>>, handle: int) -> bool {
    &&& 1 <= handle <= table.len()
    &&& table[handle - 1] is Some
}

/// The table after reclaiming `handle`: its slot is emptied, every other
/// slot is untouched.
pub open spec fn spec_reclaim<T>(table: Seq<Option<T>>, handle: int) -> Seq<Option<T>> {
    table.update(handle - 1, None)
}

impl<T> HandleRegistry<T> {
    /// The slot table.
    pub closed spec fn view(&self) -> Seq<Option<T>> {
        self.slots@
    }

    /// An empty registry: no handle is live.
    pub fn new() -> (registry: HandleRegistry<T>)
        ensures
            registry@ == Seq::<Option<T>>::empty(),
    {
        HandleRegistry { slots: Vec::new() }
    }

    /// How many allocations were ever leaked into this registry.
    pub fn leaked_count(&self) -> (count: usize)
        ensures
            count == self@.len(),
    {
        self.slots.len()
    }

    /// Leaks `value` into the registry and returns the handle that now
    /// owns it.  The handle is positive, fresh, and live; every other
    /// slot is untouched.
    pub fn leak(&mut self, value: T) -> (handle: i64)
        requires
            old(self)@.len() < i64::MAX,
        ensures
            final(self)@ == old(self)@.push(Some(value)),
            handle == old(self)@.len() + 1,
            handle >= 1,
            !spec_live(old(self)@, handle as int),
            spec_live(final(self)@, handle as int),
    {
        self.slots.push(Some(value));
        self.slots.len() as i64
    }

    /// Borrows the allocation `handle` refers to without reclaiming it,
    /// or reports the handle invalid; the registry is unchanged either
    /// way.
    pub fn peek(&self, handle: i64) -> (result: Result<&T, BridgeError>)
        ensures
            spec_live(self@, handle as int) ==> (result matches Ok(value) && self@[handle - 1] == Some(
                *value,
            )),
            !spec_live(self@, handle as int) ==> result == Err::<&T, BridgeError>(
                BridgeError::InvalidHandle(handle),
            ),
    {
        if handle < 1 || (handle - 1) as u64 >= self.slots.len() as u64 {
            return Err(BridgeError::InvalidHandle(handle));
        }
        let index = (handle - 1) as usize;
        match &self.slots[index] {
            Some(value) => Ok(value),
            None => Err(BridgeError::InvalidHandle(handle)),
        }
    }

    /// Redeems `handle`: gives back ownership of the allocation it
    /// refers to and retires the handle, or reports it invalid.  Exactly
    /// the live handles can be redeemed, each exactly once: after a
    /// successful redeem the handle is no longer live, and a failed
    /// redeem changes nothing.
    pub fn redeem(&mut self, handle: i64) -> (result: Result<T, BridgeError>)
        ensures
            spec_live(old(self)@, handle as int) ==> (result matches Ok(value) && old(self)@[handle - 1]
                == Some(value) && final(self)@ == spec_reclaim(old(self)@, handle as int)),
            !spec_live(old(self)@, handle as int) ==> (result == Err::<T, BridgeError>(
                BridgeError::InvalidHandle(handle),
            ) && final(self)@ == old(self)@),
    {
        if handle < 1 || (handle - 1) as u64 >= self.slots.len() as u64 {
            return Err(BridgeError::InvalidHandle(handle));
        }
        let index = (handle - 1) as usize;
        let taken = self.slots[index].take();
        match taken {
            Some(value) => Ok(value),
            None => {
                proof {
                    assert(self@ =~= old(self)@);
                }
                Err(BridgeError::InvalidHandle(handle))
            },
        }
    }
}

/// Law: a handle can be reclaimed at most once.  Reclaiming a live
/// handle leaves it dead, so a second reclaim of the same handle is
/// rejected; and no reclaim of any other handle revives it.
pub proof fn lemma_handle_single_use<T>(table: Seq<Option<T>>, handle: int, other: int)
    requires
        spec_live(table, handle),
    ensures
        !spec_live(spec_reclaim(table, handle), handle),
        other != handle && 1 <= other <= table.len() ==> !spec_live(
            spec_reclaim(spec_reclaim(table, handle), other),
            handle,
        ),
{
}

/// Law: a leak mints a fresh handle and disturbs no other: every handle
/// other than the new one is live in the extended table exactly when it
/// was live before.
pub proof fn lemma_leak_fresh<T>(table: Seq<Option<T>>, value: T)
    ensures
        !spec_live(table, table.len() as int + 1),
        spec_live(table.push(Some(value)), table.len() as int + 1),
        forall|h: int|
            h != table.len() as int + 1 ==> #[trigger] spec_live(table.push(Some(value)), h) == spec_live(
                table,
                h,
            ),
{
}

} // verus!

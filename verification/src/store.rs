//! The pending-update store: a single-slot, overwrite-on-write, take-once
//! container shared between the background checker (writer) and the
//! installer (taker).
//!
//! The slot holds at most one descriptor at a time. `put` overwrites any
//! resident value (the latest check wins); `take` reads and clears in one
//! step, so a descriptor is consumed at most once. The shell wraps one
//! `PendingSlot` in its own mutual-exclusion primitive to share it between
//! tasks; the slot itself never waits on anything.

use vstd::prelude::*;

use crate::descriptor::UpdateDescriptor;

verus! {

/// What `put` leaves in a slot whose content was `s`: the new descriptor,
/// whatever was there before.
pub open spec fn put_spec(
    s: Option<UpdateDescriptor>,
    d: UpdateDescriptor,
) -> Option<UpdateDescriptor> {
    Some(d)
}

/// What `take` does to a slot whose content was `s`: the first component is
/// what the caller receives, the second what remains in the slot.
pub open spec fn take_spec(s: Option<UpdateDescriptor>) -> (
    Option<UpdateDescriptor>,
    Option<UpdateDescriptor>,
) {
    (s, None)
}

/// Single-slot holder of at most one pending update descriptor.
pub struct PendingSlot {
    content: Option<UpdateDescriptor>,
}

impl View for PendingSlot {
    type V = Option<UpdateDescriptor>;

    closed spec fn view(&self) -> Option<UpdateDescriptor> {
        self.content
    }
}

impl PendingSlot {
    /// A slot starts empty at process start.
    pub fn empty() -> (r: Self)
        ensures
            r@ is None,
    {
        PendingSlot { content: None }
    }

    /// Stores `d`, overwriting any descriptor already resident: the latest
    /// successful check wins.
    pub fn put(&mut self, d: UpdateDescriptor)
        ensures
            final(self)@ == put_spec(old(self)@, d),
    {
        self.content = Some(d);
    }

    /// Reads and clears the slot in one step, returning the previous content,
    /// or `None` if the slot was empty. Never waits: the result is a function
    /// of the slot's content alone.
    pub fn take(&mut self) -> (r: Option<UpdateDescriptor>)
        ensures
            r == take_spec(old(self)@).0,
            final(self)@ == take_spec(old(self)@).1,
    {
        self.content.take()
    }
}

/// Last write wins: after two `put`s without an intervening `take`, a `take`
/// returns the second descriptor, never the first.
pub proof fn lemma_last_write_wins(
    s: Option<UpdateDescriptor>,
    d1: UpdateDescriptor,
    d2: UpdateDescriptor,
)
    ensures
        take_spec(put_spec(put_spec(s, d1), d2)).0 == Some(d2),
        d1 != d2 ==> take_spec(put_spec(put_spec(s, d1), d2)).0 != Some(d1),
{
}

/// A `take` on an empty slot returns empty and leaves the slot empty.
pub proof fn lemma_take_on_empty()
    ensures
        take_spec(None).0 is None,
        take_spec(None).1 is None,
{
}

/// Single consumption: after any `take`, a second `take` without an
/// intervening `put` returns empty.
pub proof fn lemma_take_then_take(s: Option<UpdateDescriptor>)
    ensures
        take_spec(take_spec(s).1).0 is None,
{
}

} // verus!

use vstd::prelude::*;

verus! {

/// A single-occupancy cell for the live child-process handle.
///
/// The slot is empty before a child is launched and after teardown; it holds
/// at most one handle at a time. Callers that share it between execution
/// contexts put it behind a lock held only for one `put` or `take`.
pub struct HandleSlot<T> {
    handle: Option<T>,
}

impl<T> View for HandleSlot<T> {
    type V = Option<T>;

    closed spec fn view(&self) -> Option<T> {
        self.handle
    }
}

/// Storing `h` in a slot holding `slot`: the slot's new content, and what it held.
pub open spec fn put_result<T>(slot: Option<T>, h: T) -> (Option<T>, Option<T>) {
    (Some(h), slot)
}

/// Taking from a slot holding `slot`: the slot's new content, and what was taken.
pub open spec fn take_result<T>(slot: Option<T>) -> (Option<T>, Option<T>) {
    (None, slot)
}

impl<T> HandleSlot<T> {
    /// An empty slot.
    pub fn new() -> (r: Self)
        ensures
            r@ is None,
    {
        HandleSlot { handle: None }
    }

    /// Stores `handle`, handing back whatever the slot held before.
    pub fn put(&mut self, handle: T) -> (previous: Option<T>)
        ensures
            (final(self)@, previous) == put_result(old(self)@, handle),
    {
        let previous = self.handle.take();
        self.handle = Some(handle);
        previous
    }

    /// Removes and returns the stored handle, leaving the slot empty.
    pub fn take(&mut self) -> (r: Option<T>)
        ensures
            (final(self)@, r) == take_result(old(self)@),
    {
        self.handle.take()
    }

    /// Whether a handle is stored.
    pub fn is_occupied(&self) -> (r: bool)
        ensures
            r == self@ is Some,
    {
        self.handle.is_some()
    }
}

/// After `put(h)` and then `take()`, the take yields `h` and the slot is
/// empty; a second `take()` yields nothing.
pub proof fn lemma_put_then_take<T>(slot: Option<T>, h: T)
    ensures
        ({
            let (after_put, _) = put_result(slot, h);
            let (after_take, taken) = take_result(after_put);
            let (after_second, second) = take_result(after_take);
            &&& taken == Some(h)
            &&& after_take is None
            &&& second is None
            &&& after_second is None
        }),
{
}

} // verus!

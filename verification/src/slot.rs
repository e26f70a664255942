//! The once-slot: a cell that gives up its action to the first taker and stays
//! empty ever after.

use vstd::prelude::*;

verus! {

/// Holds the shutdown action until the first taker removes it.
///
/// A slot only ever holds an action whose precondition is met, so whoever
/// takes the action may call it.
pub struct OnceSlot<A: FnOnce() -> i32> {
    action: Option<A>,
}

impl<A: FnOnce() -> i32> View for OnceSlot<A> {
    type V = Option<A>;

    closed spec fn view(&self) -> Option<A> {
        self.action
    }
}

impl<A: FnOnce() -> i32> OnceSlot<A> {
    #[verifier::type_invariant]
    spec fn callable(self) -> bool {
        self.action matches Some(a) ==> a.requires(())
    }

    /// An occupied slot holding `action`.
    pub fn new(action: A) -> (slot: Self)
        requires
            action.requires(()),
        ensures
            slot@ == Some(action),
    {
        OnceSlot { action: Some(action) }
    }

    /// Whether the action is still in the slot.
    pub fn is_occupied(&self) -> (occupied: bool)
        ensures
            occupied == self@.is_some(),
    {
        self.action.is_some()
    }

    /// Removes the action, leaving the slot empty.
    pub fn take(&mut self) -> (taken: Option<A>)
        ensures
            taken == old(self)@,
            final(self)@ is None,
            taken matches Some(a) ==> a.requires(()),
    {
        proof {
            use_type_invariant(&*self);
        }
        let mut taken: Option<A> = None;
        core::mem::swap(&mut taken, &mut self.action);
        taken
    }
}

} // verus!

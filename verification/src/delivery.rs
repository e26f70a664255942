//! What a single delivery of the interrupt does, and what follows for any
//! run of deliveries.

use crate::slot::OnceSlot;
use vstd::prelude::*;

verus! {

/// How one delivery of the interrupt ended.
#[derive(Clone, Copy, Debug, PartialEq, Eq, Structural)]
pub enum Delivery {
    /// The action ran and the exit primitive was called with its exit code.
    Terminated(i32),
    /// The slot was already empty; nothing was done.
    Ignored,
    /// The slot could not be locked; nothing was done.
    Unavailable,
}

/// Whether a delivery that meets the slot holding `slot` may end in `outcome`.
///
/// A delivery that reaches an occupied slot runs the action and ends with one
/// of the codes the action can return; one that reaches an empty slot is
/// ignored; one that cannot lock the slot may happen in either state.
pub open spec fn admits<A: FnOnce() -> i32>(slot: Option<A>, outcome: Delivery) -> bool {
    match outcome {
        Delivery::Terminated(code) => slot matches Some(action) && action.ensures((), code),
        Delivery::Ignored => slot is None,
        Delivery::Unavailable => true,
    }
}

/// The slot after a delivery that ended in `outcome`: untouched if it could
/// not be locked, empty otherwise.
pub open spec fn slot_after<A>(slot: Option<A>, outcome: Delivery) -> Option<A> {
    if outcome is Unavailable {
        slot
    } else {
        None
    }
}

/// Runs what was taken out of the slot: calls the action, if there is one,
/// and hands its exit code to `exit`.
///
/// With the process-exit primitive as `exit` the call does not return once
/// the action has run.
pub fn settle<A: FnOnce() -> i32, X: Fn(i32)>(taken: Option<A>, exit: &X) -> (outcome: Delivery)
    requires
        taken matches Some(action) ==> action.requires(()),
        forall|code: i32| exit.requires((code,)),
    ensures
        outcome !is Unavailable,
        admits(taken, outcome),
        outcome matches Delivery::Terminated(code) ==> exit.ensures((code,), ()),
{
    match taken {
        Some(action) => {
            let code: i32 = action();
            exit(code);
            Delivery::Terminated(code)
        },
        None => Delivery::Ignored,
    }
}

/// One delivery to a slot that the caller holds for itself: takes the action
/// out of the slot, so that the slot is empty before the action runs, then
/// calls it and hands its exit code to `exit`. An empty slot is left as it
/// is and nothing is called.
pub fn deliver<A: FnOnce() -> i32, X: Fn(i32)>(
    slot: &mut OnceSlot<A>,
    exit: &X,
) -> (outcome: Delivery)
    requires
        forall|code: i32| exit.requires((code,)),
    ensures
        outcome !is Unavailable,
        admits(old(slot)@, outcome),
        final(slot)@ == slot_after(old(slot)@, outcome),
        outcome matches Delivery::Terminated(code) ==> exit.ensures((code,), ()),
{
    let taken = slot.take();
    settle(taken, exit)
}

/// How a delivery ends, given what it claimed from the slot: `None` if the
/// slot could not be locked, otherwise what was taken out of it.
///
/// A delivery that could not lock the slot does nothing; any other is
/// settled.
pub fn conclude<A: FnOnce() -> i32, X: Fn(i32)>(
    claimed: Option<Option<A>>,
    exit: &X,
) -> (outcome: Delivery)
    requires
        claimed matches Some(Some(action)) ==> action.requires(()),
        forall|code: i32| exit.requires((code,)),
    ensures
        match claimed {
            None => outcome == Delivery::Unavailable,
            Some(taken) => {
                &&& outcome !is Unavailable
                &&& admits(taken, outcome)
                &&& outcome matches Delivery::Terminated(code) ==> exit.ensures((code,), ())
            },
        },
{
    match claimed {
        Some(taken) => settle(taken, exit),
        None => Delivery::Unavailable,
    }
}

/// Whether `outcomes` can be the outcomes of consecutive deliveries, the
/// first of which meets the slot holding `slot`.
pub open spec fn admits_all<A: FnOnce() -> i32>(slot: Option<A>, outcomes: Seq<Delivery>) -> bool
    decreases outcomes.len(),
{
    outcomes.len() > 0 ==> {
        &&& admits(slot, outcomes.first())
        &&& admits_all(slot_after(slot, outcomes.first()), outcomes.drop_first())
    }
}

/// How many of `outcomes` ran the action.
pub open spec fn runs(outcomes: Seq<Delivery>) -> nat
    decreases outcomes.len(),
{
    if outcomes.len() == 0 {
        0
    } else if outcomes.first() is Terminated {
        1 + runs(outcomes.drop_first())
    } else {
        runs(outcomes.drop_first())
    }
}

/// An empty slot is never filled again: however many deliveries follow, none
/// of them runs anything.
pub proof fn lemma_empty_slot_runs_nothing<A: FnOnce() -> i32>(outcomes: Seq<Delivery>)
    requires
        admits_all(None::<A>, outcomes),
    ensures
        runs(outcomes) == 0,
        forall|i: int| 0 <= i < outcomes.len() ==> outcomes[i] !is Terminated,
    decreases outcomes.len(),
{
    if outcomes.len() > 0 {
        let rest = outcomes.drop_first();
        lemma_empty_slot_runs_nothing::<A>(rest);
        assert forall|i: int| 0 <= i < outcomes.len() implies outcomes[i] !is Terminated by {
            if i > 0 {
                assert(outcomes[i] == rest[i - 1]);
            }
        }
    }
}

/// Whatever the slot holds at first and however many deliveries follow, the
/// action runs at most once.
pub proof fn lemma_action_runs_at_most_once<A: FnOnce() -> i32>(
    slot: Option<A>,
    outcomes: Seq<Delivery>,
)
    requires
        admits_all(slot, outcomes),
    ensures
        runs(outcomes) <= 1,
    decreases outcomes.len(),
{
    if outcomes.len() > 0 {
        let rest = outcomes.drop_first();
        if outcomes.first() is Unavailable {
            lemma_action_runs_at_most_once(slot, rest);
        } else {
            lemma_empty_slot_runs_nothing::<A>(rest);
        }
    }
}

/// Of deliveries that start at a slot holding `action`, the first to lock the
/// slot runs the action and ends with one of its exit codes, and no later one
/// runs anything.
pub proof fn lemma_first_to_lock_runs_the_action<A: FnOnce() -> i32>(
    action: A,
    outcomes: Seq<Delivery>,
    first: int,
)
    requires
        admits_all(Some(action), outcomes),
        0 <= first < outcomes.len(),
        outcomes[first] !is Unavailable,
        forall|i: int| 0 <= i < first ==> outcomes[i] is Unavailable,
    ensures
        outcomes[first] matches Delivery::Terminated(code) && action.ensures((), code),
        forall|i: int| first < i < outcomes.len() ==> outcomes[i] !is Terminated,
    decreases outcomes.len(),
{
    let rest = outcomes.drop_first();
    if first == 0 {
        lemma_empty_slot_runs_nothing::<A>(rest);
        assert forall|i: int| first < i < outcomes.len() implies outcomes[i] !is Terminated by {
            assert(outcomes[i] == rest[i - 1]);
        }
    } else {
        assert(outcomes[0] is Unavailable);
        assert forall|i: int| 0 <= i < first - 1 implies rest[i] is Unavailable by {
            assert(rest[i] == outcomes[i + 1]);
        }
        assert(rest[first - 1] == outcomes[first]);
        lemma_first_to_lock_runs_the_action(action, rest, first - 1);
        assert forall|i: int| first < i < outcomes.len() implies outcomes[i] !is Terminated by {
            assert(outcomes[i] == rest[i - 1]);
        }
    }
}

/// After any number of deliveries to a slot holding `action`, at least one of
/// which locked the slot, the action has run exactly once, and every exit
/// code that was handed on is one that the action returned.
pub proof fn lemma_action_runs_exactly_once<A: FnOnce() -> i32>(
    action: A,
    outcomes: Seq<Delivery>,
    locked: int,
)
    requires
        admits_all(Some(action), outcomes),
        0 <= locked < outcomes.len(),
        outcomes[locked] !is Unavailable,
    ensures
        runs(outcomes) == 1,
        forall|i: int, code: i32|
            0 <= i < outcomes.len() && outcomes[i] == Delivery::Terminated(code)
                ==> action.ensures((), code),
    decreases outcomes.len(),
{
    let rest = outcomes.drop_first();
    if outcomes.first() is Unavailable {
        assert(rest[locked - 1] == outcomes[locked]);
        lemma_action_runs_exactly_once(action, rest, locked - 1);
        assert forall|i: int, code: i32|
            0 <= i < outcomes.len() && outcomes[i] == Delivery::Terminated(code)
            implies action.ensures((), code) by {
            assert(outcomes[i] == rest[i - 1]);
        }
    } else {
        lemma_empty_slot_runs_nothing::<A>(rest);
        assert forall|i: int, code: i32|
            0 <= i < outcomes.len() && outcomes[i] == Delivery::Terminated(code)
            implies action.ensures((), code) by {
            if i > 0 {
                assert(outcomes[i] == rest[i - 1]);
            }
        }
    }
}

/// No two deliveries both find the action in the slot: of any two outcomes
/// in a run of deliveries, at most one ran the action.
pub proof fn lemma_no_two_deliveries_run_the_action<A: FnOnce() -> i32>(
    slot: Option<A>,
    outcomes: Seq<Delivery>,
    earlier: int,
    later: int,
)
    requires
        admits_all(slot, outcomes),
        0 <= earlier < later < outcomes.len(),
    ensures
        !(outcomes[earlier] is Terminated && outcomes[later] is Terminated),
    decreases outcomes.len(),
{
    let rest = outcomes.drop_first();
    assert(outcomes[later] == rest[later - 1]);
    if earlier == 0 {
        if outcomes[0] is Terminated {
            lemma_empty_slot_runs_nothing::<A>(rest);
        }
    } else {
        assert(outcomes[earlier] == rest[earlier - 1]);
        lemma_no_two_deliveries_run_the_action(
            slot_after(slot, outcomes.first()),
            rest,
            earlier - 1,
            later - 1,
        );
    }
}

} // verus!

//! The trampoline: the repeatable handler that routes the first delivery of
//! the interrupt into the move-once action.

use crate::delivery::{conclude, Delivery};
use crate::slot::OnceSlot;
use std::sync::{LockResult, Mutex, MutexGuard, PoisonError};
use vstd::prelude::*;

verus! {

/// `std::sync::Mutex`, opaque: nothing is known of what it protects.
#[verifier::external_type_specification]
#[verifier::external_body]
#[verifier::reject_recursive_types(T)]
pub struct ExMutex<T: ?Sized>(Mutex<T>);

/// `std::sync::MutexGuard`, opaque: the held lock, given back when dropped.
#[verifier::external_type_specification]
#[verifier::external_body]
#[verifier::reject_recursive_types(T)]
pub struct ExMutexGuard<'a, T: ?Sized + 'a>(MutexGuard<'a, T>);

/// `std::sync::PoisonError`, opaque: the error of a lock whose earlier holder
/// panicked.
#[verifier::external_type_specification]
#[verifier::external_body]
#[verifier::reject_recursive_types(T)]
pub struct ExPoisonError<T>(PoisonError<T>);

/// `Mutex::new`: a mutex around `value`. Nothing is claimed of the mutex
/// returned.
pub assume_specification<T>[ Mutex::<T>::new ](value: T) -> (mutex: Mutex<T>);

/// `Mutex::lock`: waits until the lock is free and returns its guard, or the
/// poison error if an earlier holder panicked. Nothing is claimed of which,
/// nor of what the guard protects.
///
/// `lock` may panic or wait forever on a thread that already holds the lock.
/// The only caller is [`Trampoline::claim`], which passes the guard on to
/// [`take_locked`]; that runs nothing but a swap before it drops the guard,
/// so no thread ever asks for the lock while it holds it.
#[verifier::external_body]
fn lock<'a, T>(mutex: &'a Mutex<T>) -> (locked: LockResult<MutexGuard<'a, T>>) {
    mutex.lock()
}

/// `DerefMut::deref_mut` of a `MutexGuard`: the exclusive borrow of what the
/// guard protects. Nothing is claimed of the value found there.
#[verifier::external_body]
fn guarded<'a, 'b, T>(guard: &'a mut MutexGuard<'b, T>) -> (content: &'a mut T) {
    std::ops::DerefMut::deref_mut(guard)
}

/// The handler installed with the signal dispatcher. It may be fired any
/// number of times, from any thread; only the first firing that reaches the
/// occupied slot runs the action.
#[verifier::reject_recursive_types(A)]
pub struct Trampoline<A: FnOnce() -> i32, X: Fn(i32)> {
    slot: Mutex<OnceSlot<A>>,
    exit: X,
}

impl<A: FnOnce() -> i32, X: Fn(i32)> Trampoline<A, X> {
    #[verifier::type_invariant]
    spec fn exit_takes_any_code(self) -> bool {
        forall|code: i32| self.exit.requires((code,))
    }

    /// The exit primitive the trampoline hands the action's code to.
    pub closed spec fn exit(self) -> X {
        self.exit
    }

    /// A trampoline armed with `action`, which ends the process through
    /// `exit`.
    pub fn new(action: A, exit: X) -> (trampoline: Self)
        requires
            action.requires(()),
            forall|code: i32| exit.requires((code,)),
        ensures
            trampoline.exit() == exit,
    {
        Trampoline { slot: Mutex::new(OnceSlot::new(action)), exit }
    }

    /// Takes the action out of the slot under the lock. `None` if the lock
    /// could not be had; otherwise what the slot held.
    fn claim(&self) -> (claimed: Option<Option<A>>)
        ensures
            claimed matches Some(Some(action)) ==> action.requires(()),
    {
        // The guard is gone, and the lock free again, when this returns.
        let locked = lock(&self.slot);
        let claimed = take_locked(locked);
        claimed
    }

    /// Handles one delivery of the interrupt: takes the action out of the
    /// slot and, with the lock released again, runs it and hands its exit code
    /// to the exit primitive. Does nothing if the slot cannot be locked or is
    /// already empty.
    pub fn fire(&self) -> (outcome: Delivery)
        ensures
            outcome matches Delivery::Terminated(code) ==> {
                &&& self.exit().ensures((code,), ())
                &&& exists|action: A| action.requires(()) && action.ensures((), code)
            },
    {
        proof {
            use_type_invariant(self);
        }
        conclude(self.claim(), &self.exit)
    }
}

/// What a delivery gets out of the slot once the lock has answered: nothing
/// if the lock was refused; otherwise whatever the slot held, which it leaves
/// empty. The guard is dropped, and the lock given back, before this returns.
pub fn take_locked<A: FnOnce() -> i32>(
    locked: LockResult<MutexGuard<'_, OnceSlot<A>>>,
) -> (claimed: Option<Option<A>>)
    ensures
        claimed is None <==> locked is Err,
        claimed matches Some(Some(action)) ==> action.requires(()),
{
    match locked {
        Ok(mut guard) => Some(guarded(&mut guard).take()),
        Err(_) => None,
    }
}

} // verus!

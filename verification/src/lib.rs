//! Run a move-once shutdown action when the process is interrupted.
//!
//! The signal dispatcher wants a handler that may be called again and again,
//! from any thread. A shutdown action is different: it consumes what it owns,
//! returns an exit code, and must run at most once. [`set_ctrlc_handler`]
//! bridges the two with a [`trampoline::Trampoline`] that keeps the action in
//! a locked [`slot::OnceSlot`] and lets only the first delivery take it.

pub mod delivery;
pub mod error;
pub mod slot;
pub mod trampoline;

use crate::error::{installation_outcome, kind_of, reported, InstallError};
use crate::trampoline::Trampoline;
use vstd::prelude::*;

verus! {

/// `ctrlc::set_handler` with a handler that fires the trampoline on every
/// delivery. Registration may succeed or be refused; nothing is claimed of
/// which.
#[verifier::external_body]
fn register<A, X>(trampoline: Trampoline<A, X>) -> (registered: Result<(), ctrlc::Error>)
    where
        A: FnOnce() -> i32 + Send + 'static,
        X: Fn(i32) + Send + 'static,
{
    ctrlc::set_handler(move || {
        trampoline.fire();
    })
}

/// Registers `f` as the shutdown action that runs when the process is
/// interrupted.
///
/// On the first delivery the action is taken out of its slot and called, and
/// its exit code is handed to `exit`, which is expected to end the process.
/// Later deliveries find the slot empty and do nothing. If the dispatcher
/// refuses the registration, its error is returned and the action is dropped
/// without having run.
///
/// Whether the registration succeeds is the dispatcher's to decide. The
/// result is what [`installation_outcome`] reports of the dispatcher's
/// answer; a rejection carries the dispatcher's error and the kind of that
/// very error.
pub fn set_ctrlc_handler<F, X>(f: F, exit: X) -> (installed: Result<(), InstallError>)
    where
        F: FnOnce() -> i32 + Send + 'static,
        X: Fn(i32) + Send + 'static,
    requires
        f.requires(()),
        forall|code: i32| exit.requires((code,)),
    ensures
        exists|registered: Result<(), ctrlc::Error>| #[trigger] reported(registered, installed),
        installed matches Err(rejected) ==> rejected.kind == kind_of(rejected.cause),
{
    installation_outcome(register(Trampoline::new(f, exit)))
}

} // verus!

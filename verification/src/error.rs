//! Why an installation was rejected.

use vstd::prelude::*;

verus! {

/// `ctrlc::Error`, opaque: the dispatcher's error is carried through as it is.
#[verifier::external_type_specification]
#[verifier::external_body]
pub struct ExDispatcherError(ctrlc::Error);

/// The kind of refusal the signal dispatcher reported.
#[derive(Clone, Copy, Debug, PartialEq, Eq, Structural)]
pub enum Rejection {
    /// A handler is already registered in this process.
    MultipleHandlers,
    /// The operating system refused to set the handler up.
    System,
    /// The system does not know the signal.
    NoSuchSignal,
}

/// An installation the signal dispatcher rejected: the kind of refusal, and
/// the dispatcher's own error as it was reported.
#[derive(Debug)]
pub struct InstallError {
    pub kind: Rejection,
    pub cause: ctrlc::Error,
}

/// Which of its variants a `ctrlc::Error` is: what [`rejection_of`] finds by
/// matching on it.
pub uninterp spec fn kind_of(cause: ctrlc::Error) -> Rejection;

/// Whether `installed` is what the installer reports of the dispatcher's
/// answer `registered`: success for success, and for a refusal the
/// dispatcher's error unchanged, together with its kind.
pub open spec fn reported(
    registered: Result<(), ctrlc::Error>,
    installed: Result<(), InstallError>,
) -> bool {
    match registered {
        Ok(_) => installed is Ok,
        Err(cause) => {
            &&& installed matches Err(rejected)
            &&& rejected.cause == cause
            &&& rejected.kind == kind_of(cause)
        },
    }
}

/// Tells the variants of `ctrlc::Error` apart, one arm for each: the kind
/// returned is the variant that `error` is, which `kind_of` names. The error
/// itself stays opaque to the proofs.
#[verifier::external_body]
fn rejection_of(error: &ctrlc::Error) -> (kind: Rejection)
    ensures
        kind == kind_of(*error),
{
    match error {
        ctrlc::Error::MultipleHandlers => Rejection::MultipleHandlers,
        ctrlc::Error::System(_) => Rejection::System,
        ctrlc::Error::NoSuchSignal(_) => Rejection::NoSuchSignal,
    }
}

/// Turns the dispatcher's answer into the installer's: success stays
/// success, and a refusal is passed on with the dispatcher's error unchanged
/// and the kind of that error beside it.
pub fn installation_outcome(
    registered: Result<(), ctrlc::Error>,
) -> (outcome: Result<(), InstallError>)
    ensures
        reported(registered, outcome),
{
    match registered {
        Ok(()) => Ok(()),
        Err(cause) => {
            let kind = rejection_of(&cause);
            Err(InstallError { kind, cause })
        },
    }
}

} // verus!

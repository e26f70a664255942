use ctrlc_fnonce::error::{installation_outcome, Rejection};
use std::io::{Error, ErrorKind};

#[test]
fn success_stays_success() {
    assert!(installation_outcome(Ok(())).is_ok());
}

#[test]
fn a_second_handler_is_reported_as_such() {
    let rejected = installation_outcome(Err(ctrlc::Error::MultipleHandlers)).unwrap_err();
    assert_eq!(rejected.kind, Rejection::MultipleHandlers);
    assert!(matches!(rejected.cause, ctrlc::Error::MultipleHandlers));
}

#[test]
fn a_system_error_is_passed_on_unchanged() {
    let refused = Error::new(ErrorKind::PermissionDenied, "sigaction refused");
    let rejected = installation_outcome(Err(ctrlc::Error::System(refused))).unwrap_err();
    assert_eq!(rejected.kind, Rejection::System);
    match rejected.cause {
        ctrlc::Error::System(cause) => {
            assert_eq!(cause.kind(), ErrorKind::PermissionDenied);
            assert_eq!(format!("{cause}"), "sigaction refused");
        }
        other => panic!("the cause changed: {other:?}"),
    }
}

#[test]
fn an_unknown_signal_is_reported_as_such() {
    let unknown = ctrlc::Error::NoSuchSignal(ctrlc::SignalType::Termination);
    let rejected = installation_outcome(Err(unknown)).unwrap_err();
    assert_eq!(rejected.kind, Rejection::NoSuchSignal);
    assert!(matches!(
        rejected.cause,
        ctrlc::Error::NoSuchSignal(ctrlc::SignalType::Termination)
    ));
}

use ctrlc_fnonce::set_ctrlc_handler;
use nix::sys::signal::{raise, Signal};
use std::sync::atomic::{AtomicUsize, Ordering};
use std::sync::mpsc::{channel, RecvTimeoutError};
use std::sync::Arc;
use std::time::Duration;

#[test]
fn repeated_interrupts_run_the_action_once() {
    let runs = Arc::new(AtomicUsize::new(0));
    let counted = Arc::clone(&runs);
    let action = move || {
        counted.fetch_add(1, Ordering::SeqCst);
        3
    };
    let (exits, observed) = channel();
    let exit = move |code: i32| exits.send(code).expect("the test still listens");
    set_ctrlc_handler(action, exit).expect("no handler was installed before");
    for _ in 0..8 {
        raise(Signal::SIGINT).expect("the signal can be raised");
    }
    assert_eq!(observed.recv_timeout(Duration::from_secs(10)), Ok(3));
    assert_eq!(observed.recv_timeout(Duration::from_secs(2)), Err(RecvTimeoutError::Timeout));
    assert_eq!(runs.load(Ordering::SeqCst), 1);
}

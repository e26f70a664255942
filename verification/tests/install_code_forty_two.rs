use ctrlc_fnonce::set_ctrlc_handler;
use nix::sys::signal::{raise, Signal};
use std::sync::mpsc::channel;
use std::time::Duration;

#[test]
fn an_interrupt_ends_with_exit_code_forty_two() {
    let (exits, observed) = channel();
    let exit = move |code: i32| exits.send(code).expect("the test still listens");
    set_ctrlc_handler(|| 42, exit).expect("no handler was installed before");
    raise(Signal::SIGINT).expect("the signal can be raised");
    assert_eq!(observed.recv_timeout(Duration::from_secs(10)), Ok(42));
}

use ctrlc_fnonce::set_ctrlc_handler;
use nix::sys::signal::{raise, Signal};
use std::sync::mpsc::channel;
use std::sync::{Arc, Mutex};
use std::time::Duration;

#[test]
fn the_action_writes_its_sentinel_and_ends_with_its_code() {
    let sentinel = Arc::new(Mutex::new(String::new()));
    let written = Arc::clone(&sentinel);
    let text = String::from("done");
    let action = move || {
        written.lock().unwrap().push_str(&text);
        drop(text);
        7
    };
    let (exits, observed) = channel();
    let exit = move |code: i32| exits.send(code).expect("the test still listens");
    set_ctrlc_handler(action, exit).expect("no handler was installed before");
    assert_eq!(*sentinel.lock().unwrap(), "");
    raise(Signal::SIGINT).expect("the signal can be raised");
    assert_eq!(observed.recv_timeout(Duration::from_secs(10)), Ok(7));
    assert_eq!(*sentinel.lock().unwrap(), "done");
}

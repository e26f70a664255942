use ctrlc_fnonce::slot::OnceSlot;

#[test]
fn a_new_slot_is_occupied() {
    let slot = OnceSlot::new(|| 0);
    assert!(slot.is_occupied());
}

#[test]
fn take_empties_the_slot() {
    let mut slot = OnceSlot::new(|| 42);
    let taken = slot.take();
    assert!(!slot.is_occupied());
    let action = taken.expect("the first take gets the action");
    assert_eq!(action(), 42);
}

#[test]
fn an_empty_slot_stays_empty() {
    let mut slot = OnceSlot::new(|| 1);
    assert!(slot.take().is_some());
    for _ in 0..3 {
        assert!(slot.take().is_none());
        assert!(!slot.is_occupied());
    }
}

#[test]
fn the_taken_action_owns_what_it_captured() {
    let message = String::from("done");
    let mut slot = OnceSlot::new(move || message.len() as i32);
    let action = slot.take().expect("the first take gets the action");
    assert_eq!(action(), 4);
}

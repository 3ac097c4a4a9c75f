use chip8::keyboard::{is_valid_key_code, to_chip_8_key, Keyboard, KeysChange};
use std::sync::mpsc::{channel, Sender};

fn make_keyboard() -> (Keyboard, Sender<KeysChange>) {
    let (sender, receiver) = channel();
    (Keyboard::new(receiver), sender)
}

#[test]
fn no_events_means_no_keys() {
    let (mut keyboard, _sender) = make_keyboard();
    assert_eq!(keyboard.get_pressed_key(), None);
    for key in 0..16 {
        assert!(!keyboard.is_key_pressed_or_held(key));
    }
}

#[test]
fn press_is_observed() {
    let (mut keyboard, sender) = make_keyboard();
    sender.send(KeysChange { pressed: vec![5], released: vec![] }).unwrap();
    assert!(keyboard.is_key_pressed_or_held(5));
    assert!(!keyboard.is_key_pressed_or_held(4));
    assert_eq!(keyboard.get_pressed_key(), Some(5));
}

#[test]
fn press_then_release_before_query_reads_released() {
    // The host reports key 5 pressed, then released, before any query:
    // only the final aggregate state is observable.
    let (mut keyboard, sender) = make_keyboard();
    sender.send(KeysChange { pressed: vec![5], released: vec![] }).unwrap();
    sender.send(KeysChange { pressed: vec![], released: vec![5] }).unwrap();
    assert!(!keyboard.is_key_pressed_or_held(5));
    assert_eq!(keyboard.get_pressed_key(), None);
}

#[test]
fn press_and_release_in_one_batch_reads_released() {
    let (mut keyboard, sender) = make_keyboard();
    sender.send(KeysChange { pressed: vec![9], released: vec![9] }).unwrap();
    assert!(!keyboard.is_key_pressed_or_held(9));
}

#[test]
fn several_held_keys_yield_some_member() {
    let (mut keyboard, sender) = make_keyboard();
    sender.send(KeysChange { pressed: vec![3, 11], released: vec![] }).unwrap();
    let key = keyboard.get_pressed_key().expect("a key is held");
    assert!(key == 3 || key == 11);
    assert!(keyboard.is_key_pressed_or_held(3));
    assert!(keyboard.is_key_pressed_or_held(11));
}

#[test]
fn key_codes_out_of_range_are_ignored() {
    let (mut keyboard, sender) = make_keyboard();
    sender.send(KeysChange { pressed: vec![200, 16], released: vec![99] }).unwrap();
    assert_eq!(keyboard.get_pressed_key(), None);
}

#[test]
fn release_of_unpressed_key_is_harmless() {
    let (mut keyboard, sender) = make_keyboard();
    sender.send(KeysChange { pressed: vec![2], released: vec![7] }).unwrap();
    assert!(keyboard.is_key_pressed_or_held(2));
    assert!(!keyboard.is_key_pressed_or_held(7));
}

#[test]
fn key_code_conversion_accepts_machine_keys_only() {
    assert!(is_valid_key_code(0));
    assert!(is_valid_key_code(15));
    assert!(!is_valid_key_code(16));
    assert_eq!(to_chip_8_key(0xA), Some(0xA));
    assert_eq!(to_chip_8_key(15), Some(15));
    assert_eq!(to_chip_8_key(16), None);
    assert_eq!(to_chip_8_key(255), None);
}

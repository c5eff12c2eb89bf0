use scene_graph::input::{KeyState, PressedKeys};

#[test]
fn no_key_is_held_at_first() {
    let keys = PressedKeys::new();
    assert!(keys.keys().is_empty());
    assert!(!keys.contains(0));
    assert!(!keys.contains(17));
}

#[test]
fn pressed_key_is_held() {
    let mut keys = PressedKeys::new();
    keys.press(32);
    assert!(keys.contains(32));
    assert!(!keys.contains(33));
    assert_eq!(keys.keys(), &vec![32]);
}

#[test]
fn keys_are_held_in_the_order_they_went_down() {
    let mut keys = PressedKeys::new();
    keys.press(5);
    keys.press(2);
    keys.press(9);
    assert_eq!(keys.keys(), &vec![5, 2, 9]);
}

#[test]
fn key_that_repeats_is_held_once() {
    let mut keys = PressedKeys::new();
    keys.press(5);
    keys.press(2);
    keys.press(5);
    keys.press(5);
    assert_eq!(keys.keys(), &vec![5, 2]);
}

#[test]
fn released_key_is_held_no_more() {
    let mut keys = PressedKeys::new();
    keys.press(5);
    keys.press(2);
    keys.press(9);
    keys.release(2);
    assert_eq!(keys.keys(), &vec![5, 9]);
    assert!(!keys.contains(2));
    assert!(keys.contains(5));
    assert!(keys.contains(9));
    keys.release(5);
    keys.release(9);
    assert!(keys.keys().is_empty());
}

#[test]
fn releasing_a_key_that_is_not_held_changes_nothing() {
    let mut keys = PressedKeys::new();
    keys.release(1);
    assert!(keys.keys().is_empty());
    keys.press(4);
    keys.release(1);
    assert_eq!(keys.keys(), &vec![4]);
}

#[test]
fn key_can_go_down_again_after_it_went_up() {
    let mut keys = PressedKeys::new();
    keys.press(4);
    keys.press(6);
    keys.release(4);
    keys.press(4);
    assert_eq!(keys.keys(), &vec![6, 4]);
}

#[test]
fn record_presses_and_releases() {
    let mut keys = PressedKeys::new();
    keys.record(KeyState::Pressed, 10);
    keys.record(KeyState::Pressed, 11);
    keys.record(KeyState::Pressed, 10);
    assert_eq!(keys.keys(), &vec![10, 11]);
    keys.record(KeyState::Released, 10);
    assert_eq!(keys.keys(), &vec![11]);
    keys.record(KeyState::Released, 12);
    assert_eq!(keys.keys(), &vec![11]);
}

#[test]
fn largest_and_smallest_codes_are_keys_like_any_other() {
    let mut keys = PressedKeys::new();
    keys.press(u32::MAX);
    keys.press(0);
    assert_eq!(keys.keys(), &vec![u32::MAX, 0]);
    keys.release(u32::MAX);
    assert_eq!(keys.keys(), &vec![0]);
}

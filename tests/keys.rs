use voxel_world::keyboard::{KeyState, Keyboard};

const W: u32 = 17;
const S: u32 = 18;

#[test]
fn unseen_key_is_neither_pressed_nor_released() {
    let keys = Keyboard::new();
    assert!(!keys.is_key_pressed(W));
    assert!(!keys.is_key_released(W));
    assert!(!keys.is_key_just_pressed(W));
    assert!(!keys.is_key_just_released(W));
    assert_eq!(keys.state(W), None);
}

#[test]
fn press_then_hold_then_release() {
    let mut keys = Keyboard::new();
    keys.process_key(W, true);
    assert!(keys.is_key_pressed(W));
    assert!(keys.is_key_just_pressed(W));
    assert!(!keys.is_key_released(W));
    keys.process_key(W, true);
    assert!(keys.is_key_pressed(W));
    assert!(!keys.is_key_just_pressed(W));
    keys.process_key(W, false);
    assert!(!keys.is_key_pressed(W));
    assert!(keys.is_key_released(W));
    assert!(!keys.is_key_just_pressed(W));
    assert!(!keys.is_key_just_released(W));
    assert_eq!(
        keys.state(W),
        Some(KeyState { just_pressed: false, pressed: false, just_released: false, released: true })
    );
    keys.process_key(W, false);
    assert!(keys.is_key_released(W));
    assert!(!keys.is_key_just_released(W));
    keys.process_key(W, true);
    assert!(keys.is_key_just_pressed(W));
    assert!(!keys.is_key_released(W));
}

#[test]
fn keys_are_independent() {
    let mut keys = Keyboard::new();
    keys.process_key(W, true);
    keys.process_key(S, false);
    assert!(keys.is_key_pressed(W));
    assert!(!keys.is_key_pressed(S));
    assert!(keys.is_key_released(S));
    assert!(!keys.is_key_released(W));
}

#[test]
fn release_of_unseen_key_is_recorded() {
    let mut keys = Keyboard::new();
    keys.process_key(S, false);
    assert_eq!(
        keys.state(S),
        Some(KeyState { just_pressed: false, pressed: false, just_released: false, released: true })
    );
}

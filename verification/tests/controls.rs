use player_physics::controls::{movement_of, slot, Key, MoveKeys, Movement};

const ALL: [Movement; 6] = [
    Movement::Forward,
    Movement::Backward,
    Movement::Left,
    Movement::Right,
    Movement::Up,
    Movement::Down,
];

fn held(keys: &MoveKeys) -> Vec<bool> {
    ALL.iter().map(|m| keys.is_held(*m)).collect()
}

#[test]
fn new_keys_are_all_released() {
    let keys = MoveKeys::new();
    assert_eq!(held(&keys), vec![false; 6]);
    assert_eq!(keys.forward_amount(), 0);
    assert_eq!(keys.strafe_amount(), 0);
    assert_eq!(keys.vertical_amount(), 0);
}

#[test]
fn key_bindings() {
    assert_eq!(movement_of(Key::W), Some(Movement::Forward));
    assert_eq!(movement_of(Key::Up), Some(Movement::Forward));
    assert_eq!(movement_of(Key::S), Some(Movement::Backward));
    assert_eq!(movement_of(Key::Down), Some(Movement::Backward));
    assert_eq!(movement_of(Key::A), Some(Movement::Left));
    assert_eq!(movement_of(Key::Left), Some(Movement::Left));
    assert_eq!(movement_of(Key::D), Some(Movement::Right));
    assert_eq!(movement_of(Key::Right), Some(Movement::Right));
    assert_eq!(movement_of(Key::Space), Some(Movement::Up));
    assert_eq!(movement_of(Key::LShift), Some(Movement::Down));
    assert_eq!(movement_of(Key::Other), None);
}

#[test]
fn slots_follow_input_order() {
    let slots: Vec<usize> = ALL.iter().map(|m| slot(*m)).collect();
    assert_eq!(slots, vec![0, 1, 2, 3, 4, 5]);
}

#[test]
fn pressing_a_key_holds_only_its_input() {
    let mut keys = MoveKeys::new();
    assert!(keys.process_keyboard(Key::D, true));
    assert_eq!(held(&keys), vec![false, false, false, true, false, false]);
    assert_eq!(keys.strafe_amount(), 1);
    assert_eq!(keys.forward_amount(), 0);
}

#[test]
fn other_keys_are_not_handled() {
    let mut keys = MoveKeys::new();
    keys.process_keyboard(Key::W, true);
    let before = held(&keys);
    assert!(!keys.process_keyboard(Key::Other, true));
    assert!(!keys.process_keyboard(Key::Other, false));
    assert_eq!(held(&keys), before);
}

#[test]
fn release_after_press() {
    let mut keys = MoveKeys::new();
    keys.process_keyboard(Key::Space, true);
    assert!(keys.is_held(Movement::Up));
    keys.process_keyboard(Key::Space, false);
    assert!(!keys.is_held(Movement::Up));
    assert_eq!(held(&keys), vec![false; 6]);
}

#[test]
fn repeated_press_is_idempotent() {
    let mut once = MoveKeys::new();
    once.process_keyboard(Key::A, true);
    let mut twice = MoveKeys::new();
    twice.process_keyboard(Key::A, true);
    twice.process_keyboard(Key::A, true);
    assert_eq!(held(&once), held(&twice));
}

#[test]
fn alias_keys_agree() {
    let mut arrows = MoveKeys::new();
    arrows.process_keyboard(Key::Up, true);
    arrows.process_keyboard(Key::Left, true);
    let mut letters = MoveKeys::new();
    letters.process_keyboard(Key::W, true);
    letters.process_keyboard(Key::A, true);
    assert_eq!(held(&arrows), held(&letters));
    // A release through the alias releases the same input.
    letters.process_keyboard(Key::Up, false);
    assert!(!letters.is_held(Movement::Forward));
}

#[test]
fn events_on_different_inputs_commute() {
    let mut a = MoveKeys::new();
    a.process_keyboard(Key::W, true);
    a.process_keyboard(Key::LShift, true);
    let mut b = MoveKeys::new();
    b.process_keyboard(Key::LShift, true);
    b.process_keyboard(Key::W, true);
    assert_eq!(held(&a), held(&b));
}

#[test]
fn opposite_inputs_cancel() {
    let mut keys = MoveKeys::new();
    keys.process_keyboard(Key::W, true);
    keys.process_keyboard(Key::S, true);
    assert_eq!(keys.forward_amount(), 0);
    keys.process_keyboard(Key::W, false);
    assert_eq!(keys.forward_amount(), -1);
    keys.process_keyboard(Key::A, true);
    assert_eq!(keys.strafe_amount(), -1);
    keys.process_keyboard(Key::Space, true);
    assert_eq!(keys.vertical_amount(), 1);
    keys.process_keyboard(Key::LShift, true);
    assert_eq!(keys.vertical_amount(), 0);
    keys.process_keyboard(Key::Space, false);
    assert_eq!(keys.vertical_amount(), -1);
}

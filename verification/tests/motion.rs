use player_physics::motion::{axis_index, axis_mask, Axis, Footing};

#[test]
fn axis_indices_and_masks() {
    assert_eq!(axis_index(Axis::X), 0);
    assert_eq!(axis_index(Axis::Y), 1);
    assert_eq!(axis_index(Axis::Z), 2);
    assert_eq!(axis_mask(Axis::X), (1, 0, 0));
    assert_eq!(axis_mask(Axis::Y), (0, 1, 0));
    assert_eq!(axis_mask(Axis::Z), (0, 0, 1));
}

#[test]
fn body_starts_in_air() {
    let f = Footing::new();
    assert!(f.in_air);
    assert!(!f.starts_jump(true));
}

#[test]
fn vertical_hit_lands_and_allows_jump() {
    let mut f = Footing::new();
    assert!(f.after_move(Axis::Y, true));
    assert!(!f.in_air);
    assert!(f.starts_jump(true));
    assert!(!f.starts_jump(false));
}

#[test]
fn vertical_miss_takes_off() {
    let mut f = Footing { in_air: false };
    assert!(!f.after_move(Axis::Y, false));
    assert!(f.in_air);
    assert!(!f.starts_jump(true));
}

#[test]
fn horizontal_moves_keep_footing() {
    let mut f = Footing { in_air: false };
    assert!(f.after_move(Axis::X, true));
    assert!(!f.in_air);
    assert!(!f.after_move(Axis::Z, false));
    assert!(!f.in_air);
    let mut g = Footing::new();
    assert!(g.after_move(Axis::Z, true));
    assert!(g.in_air);
}

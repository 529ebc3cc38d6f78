use player_physics::collision::{first_hit, first_obstacle, Obstacle};

#[test]
fn first_hit_finds_the_first_true() {
    assert_eq!(first_hit(&vec![]), None);
    assert_eq!(first_hit(&vec![false, false]), None);
    assert_eq!(first_hit(&vec![false, true, true]), Some(1));
    assert_eq!(first_hit(&vec![true, false, true]), Some(0));
}

#[test]
fn boxes_come_before_spheres() {
    assert_eq!(
        first_obstacle(&vec![false, true, true], &vec![true]),
        Some(Obstacle::Cube(1))
    );
}

#[test]
fn sphere_answers_when_no_box_is_touched() {
    assert_eq!(
        first_obstacle(&vec![false, false], &vec![false, false, true, true]),
        Some(Obstacle::Sphere(2))
    );
}

#[test]
fn nothing_touched_leaves_the_terrain() {
    assert_eq!(first_obstacle(&vec![false], &vec![false, false]), None);
    assert_eq!(first_obstacle(&vec![], &vec![]), None);
}

use marble_physics::{Marble, PhysicsConfig, PhysicsWorld};

fn config() -> PhysicsConfig<f64> {
    PhysicsConfig::new(800.0, 600.0, 0.99, 0.9, 0.8, 0.5, 20.0)
}

fn values(m: &Marble<f64>) -> (f64, f64, f64, f64, f64, f64) {
    (m.x, m.y, m.vx, m.vy, m.radius, m.mass)
}

#[test]
fn config_new_keeps_every_field() {
    let c = PhysicsConfig::new(1.0, 2.0, 3.0, 4.0, 5.0, 6.0, 7.0);
    assert_eq!(c.field_width, 1.0);
    assert_eq!(c.field_height, 2.0);
    assert_eq!(c.damping, 3.0);
    assert_eq!(c.restitution, 4.0);
    assert_eq!(c.wall_bounce, 5.0);
    assert_eq!(c.min_speed, 6.0);
    assert_eq!(c.max_speed, 7.0);
}

#[test]
fn config_new_validates_nothing() {
    let c = PhysicsConfig::new(-1.0, 0.0, 2.0, -3.0, 7.0, 9.0, 1.0);
    assert_eq!(c.field_width, -1.0);
    assert_eq!(c.field_height, 0.0);
    assert_eq!(c.min_speed, 9.0);
    assert_eq!(c.max_speed, 1.0);
}

#[test]
fn new_world_is_empty_and_holds_its_config() {
    let world = PhysicsWorld::new(config());
    assert_eq!(world.get_marbles_len(), 0);
    assert!(world.marbles().is_empty());
    assert_eq!(world.config().field_width, 800.0);
    assert_eq!(world.config().field_height, 600.0);
    assert_eq!(world.config().max_speed, 20.0);
}

#[test]
fn add_marble_appends_in_call_order() {
    let mut world = PhysicsWorld::new(config());
    world.add_marble(1.0, 2.0, 3.0, 4.0, 5.0, 6.0);
    assert_eq!(world.get_marbles_len(), 1);
    world.add_marble(11.0, 12.0, 13.0, 14.0, 15.0, 16.0);
    world.add_marble(21.0, 22.0, 23.0, 24.0, 25.0, 26.0);
    assert_eq!(world.get_marbles_len(), 3);
    let bodies = world.marbles();
    assert_eq!(bodies.len(), 3);
    assert_eq!(values(&bodies[0]), (1.0, 2.0, 3.0, 4.0, 5.0, 6.0));
    assert_eq!(values(&bodies[1]), (11.0, 12.0, 13.0, 14.0, 15.0, 16.0));
    assert_eq!(values(&bodies[2]), (21.0, 22.0, 23.0, 24.0, 25.0, 26.0));
}

#[test]
fn add_marble_takes_degenerate_bodies() {
    let mut world = PhysicsWorld::new(config());
    world.add_marble(0.0, 0.0, 0.0, 0.0, 0.0, 0.0);
    world.add_marble(-1.0, -2.0, -3.0, -4.0, -5.0, -6.0);
    assert_eq!(world.get_marbles_len(), 2);
    assert_eq!(values(&world.marbles()[0]), (0.0, 0.0, 0.0, 0.0, 0.0, 0.0));
    assert_eq!(values(&world.marbles()[1]), (-1.0, -2.0, -3.0, -4.0, -5.0, -6.0));
}

#[test]
fn add_marble_leaves_the_config_alone() {
    let mut world = PhysicsWorld::new(config());
    world.add_marble(1.0, 2.0, 3.0, 4.0, 5.0, 6.0);
    assert_eq!(world.config().damping, 0.99);
    assert_eq!(world.config().restitution, 0.9);
    assert_eq!(world.config().wall_bounce, 0.8);
    assert_eq!(world.config().min_speed, 0.5);
}

#[test]
fn clear_marbles_removes_every_body_and_keeps_the_config() {
    let mut world = PhysicsWorld::new(config());
    world.add_marble(1.0, 2.0, 3.0, 4.0, 5.0, 6.0);
    world.add_marble(11.0, 12.0, 13.0, 14.0, 15.0, 16.0);
    world.clear_marbles();
    assert_eq!(world.get_marbles_len(), 0);
    assert!(world.marbles().is_empty());
    assert_eq!(world.config().field_width, 800.0);
}

#[test]
fn clear_marbles_on_an_empty_world_changes_nothing() {
    let mut world = PhysicsWorld::new(config());
    world.clear_marbles();
    assert_eq!(world.get_marbles_len(), 0);
}

#[test]
fn bodies_added_after_a_clear_start_at_index_zero() {
    let mut world = PhysicsWorld::new(config());
    world.add_marble(1.0, 2.0, 3.0, 4.0, 5.0, 6.0);
    world.clear_marbles();
    world.add_marble(7.0, 8.0, 9.0, 10.0, 11.0, 12.0);
    assert_eq!(world.get_marbles_len(), 1);
    assert_eq!(values(&world.marbles()[0]), (7.0, 8.0, 9.0, 10.0, 11.0, 12.0));
}

#[test]
fn update_config_swaps_the_whole_config_and_keeps_the_bodies() {
    let mut world = PhysicsWorld::new(config());
    world.add_marble(1.0, 2.0, 3.0, 4.0, 5.0, 6.0);
    world.update_config(PhysicsConfig::new(10.0, 20.0, 0.5, 0.25, 0.125, 2.0, 4.0));
    let c = world.config();
    assert_eq!(
        (
            c.field_width,
            c.field_height,
            c.damping,
            c.restitution,
            c.wall_bounce,
            c.min_speed,
            c.max_speed
        ),
        (10.0, 20.0, 0.5, 0.25, 0.125, 2.0, 4.0)
    );
    assert_eq!(world.get_marbles_len(), 1);
    assert_eq!(values(&world.marbles()[0]), (1.0, 2.0, 3.0, 4.0, 5.0, 6.0));
}

#[test]
fn marbles_view_has_get_marbles_len_entries() {
    let mut world = PhysicsWorld::new(config());
    for k in 0..17 {
        world.add_marble(f64::from(k), 0.0, 0.0, 0.0, 1.0, 1.0);
        assert_eq!(world.marbles().len(), world.get_marbles_len());
    }
    assert_eq!(world.get_marbles_len(), 17);
    assert_eq!(world.marbles()[16].x, 16.0);
}

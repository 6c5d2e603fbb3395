//! Small systems whose arithmetic is exact in double precision.

use nbody::{
    advance, make_timestamps, offset_momentum, sqr, total_energy, Body, Timestamp, BODIES_COUNT,
    INTERACTIONS,
};

fn at_rest(position: [f64; 3], mass: f64) -> Body<f64> {
    Body { position, velocity: [0.0; 3], mass }
}

/// Two massive bodies on the x axis, two apart, and three bodies without
/// mass far away on the other axes.
fn pair_with_spectators(first_mass: f64, second_mass: f64) -> [Body<f64>; BODIES_COUNT] {
    [
        at_rest([0.0, 0.0, 0.0], first_mass),
        at_rest([2.0, 0.0, 0.0], second_mass),
        at_rest([0.0, 1024.0, 0.0], 0.0),
        at_rest([0.0, 0.0, 1024.0], 0.0),
        at_rest([0.0, -1024.0, 0.0], 0.0),
    ]
}

#[test]
fn counts() {
    assert_eq!(BODIES_COUNT, 5);
    assert_eq!(INTERACTIONS, 10);
}

#[test]
fn sqr_multiplies_by_itself() {
    assert_eq!(sqr(3.0f64), 9.0);
    assert_eq!(sqr(-1.5f64), 2.25);
    assert_eq!(sqr(0.0f64), 0.0);
}

#[test]
fn kick_between_two_bodies() {
    // displacement (-2, 0, 0), distance 2, magnitude 1 / 8
    let mut bodies = pair_with_spectators(1.0, 2.0);
    advance(&mut bodies, 1.0, &f64::sqrt);
    assert_eq!(bodies[0].velocity, [0.5, 0.0, 0.0]);
    assert_eq!(bodies[1].velocity, [-0.25, 0.0, 0.0]);
    assert_eq!(bodies[0].position, [0.5, 0.0, 0.0]);
    assert_eq!(bodies[1].position, [1.75, 0.0, 0.0]);
}

#[test]
fn kick_scales_with_the_step() {
    let mut bodies = pair_with_spectators(1.0, 2.0);
    advance(&mut bodies, 0.5, &f64::sqrt);
    assert_eq!(bodies[0].velocity, [0.25, 0.0, 0.0]);
    assert_eq!(bodies[1].velocity, [-0.125, 0.0, 0.0]);
    // the position moves by the step times the new velocity
    assert_eq!(bodies[0].position, [0.125, 0.0, 0.0]);
    assert_eq!(bodies[1].position, [1.9375, 0.0, 0.0]);
}

#[test]
fn kicks_are_in_inverse_ratio_of_the_masses() {
    let first_mass = 8.0;
    let second_mass = 0.5;
    let mut bodies = pair_with_spectators(first_mass, second_mass);
    bodies[0].velocity = [1.0, 2.0, 3.0];
    bodies[1].velocity = [-1.0, 0.5, 0.25];
    let before = bodies;
    advance(&mut bodies, 1.0, &f64::sqrt);
    for m in 0..3 {
        let first_change = bodies[0].velocity[m] - before[0].velocity[m];
        let second_change = bodies[1].velocity[m] - before[1].velocity[m];
        assert_eq!(first_change, -(second_mass / first_mass) * second_change);
        assert_eq!(first_mass * first_change + second_mass * second_change, 0.0);
    }
    assert_eq!(bodies[0].velocity[0] - before[0].velocity[0], 0.125);
    assert_eq!(bodies[1].velocity[0] - before[1].velocity[0], -2.0);
}

#[test]
fn bodies_without_mass_are_pulled_but_do_not_pull() {
    let mut bodies = pair_with_spectators(1.0, 2.0);
    advance(&mut bodies, 1.0, &f64::sqrt);
    // body 2 sits at (0, 1024, 0): body 0 pulls it straight down the y axis
    assert!(bodies[2].velocity[1] < 0.0);
    assert_eq!(bodies[2].velocity[2], 0.0);
    assert_eq!(bodies[2].mass, 0.0);
}

#[test]
fn positions_move_with_the_updated_velocity() {
    let mut bodies = pair_with_spectators(1.0, 2.0);
    bodies[0].velocity = [0.0, 4.0, 0.0];
    advance(&mut bodies, 0.5, &f64::sqrt);
    // the kick along x is already part of the move
    assert_eq!(bodies[0].velocity, [0.25, 4.0, 0.0]);
    assert_eq!(bodies[0].position, [0.125, 2.0, 0.0]);
}

#[test]
fn energy_of_two_bodies() {
    let mut bodies = pair_with_spectators(3.0, 4.0);
    bodies[0].velocity = [1.0, 2.0, 2.0];
    bodies[1].velocity = [0.0, 0.0, -1.0];
    // kinetic 0.5 * 3 * 9 + 0.5 * 4 * 1, potential 3 * 4 / 2
    assert_eq!(total_energy(&bodies, 0.0, 0.5, &f64::sqrt), 13.5 + 2.0 - 6.0);
}

#[test]
fn energy_starts_from_the_given_zero() {
    let bodies = pair_with_spectators(3.0, 4.0);
    assert_eq!(total_energy(&bodies, 0.0, 0.5, &f64::sqrt), -6.0);
    assert_eq!(total_energy(&bodies, 10.0, 0.5, &f64::sqrt), 4.0);
}

#[test]
fn energy_counts_every_pair_once() {
    // five unit masses on the x axis at 0, 1, 2, 3, 4
    let mut bodies = pair_with_spectators(1.0, 1.0);
    for b in 0..BODIES_COUNT {
        bodies[b] = at_rest([b as f64, 0.0, 0.0], 1.0);
    }
    // four pairs at distance 1, three at 2, two at 3, one at 4
    let expected = -(4.0 / 1.0 + 3.0 / 2.0 + 2.0 / 3.0 + 1.0 / 4.0);
    let total = total_energy(&bodies, 0.0, 0.5, &f64::sqrt);
    assert!((total - expected).abs() < 1.0e-15);
}

#[test]
fn offset_balances_the_planets() {
    let mut bodies = pair_with_spectators(2.0, 1.0);
    bodies[0].velocity = [9.0, 9.0, 9.0];
    bodies[1].velocity = [2.0, 0.0, -4.0];
    bodies[2].mass = 4.0;
    bodies[2].velocity = [0.5, 1.0, 0.0];
    offset_momentum(&mut bodies, 0.0);
    // -(2 * 1 + 0.5 * 4) / 2, -(1 * 4) / 2, -(-4 * 1) / 2
    assert_eq!(bodies[0].velocity, [-2.0, -2.0, 2.0]);
}

#[test]
fn offset_divides_by_the_mass_of_the_star() {
    let mut bodies = pair_with_spectators(8.0, 1.0);
    bodies[1].velocity = [4.0, 0.0, 0.0];
    offset_momentum(&mut bodies, 0.0);
    assert_eq!(bodies[0].velocity, [-0.5, 0.0, 0.0]);
}

#[test]
fn coincident_bodies_give_no_finite_velocity() {
    let mut bodies = pair_with_spectators(1.0, 1.0);
    bodies[1].position = bodies[0].position;
    advance(&mut bodies, 1.0, &f64::sqrt);
    assert!(!bodies[0].velocity[0].is_finite());
    assert!(!bodies[1].velocity[0].is_finite());
}

#[test]
fn make_timestamps_copies_positions() {
    let bodies = pair_with_spectators(1.0, 2.0);
    let records = make_timestamps(&bodies, 7);
    assert_eq!(records.len(), BODIES_COUNT);
    assert_eq!(records[0], Timestamp { time: 7, planet: 0, x: 0.0, y: 0.0, z: 0.0 });
    assert_eq!(records[1], Timestamp { time: 7, planet: 1, x: 2.0, y: 0.0, z: 0.0 });
    assert_eq!(records[2], Timestamp { time: 7, planet: 2, x: 0.0, y: 1024.0, z: 0.0 });
    assert_eq!(records[3], Timestamp { time: 7, planet: 3, x: 0.0, y: 0.0, z: 1024.0 });
    assert_eq!(records[4], Timestamp { time: 7, planet: 4, x: 0.0, y: -1024.0, z: 0.0 });
}

#[test]
fn make_timestamps_does_not_need_arithmetic() {
    let body = Body { position: ['x', 'y', 'z'], velocity: ['a', 'b', 'c'], mass: 'm' };
    let records = make_timestamps(&[body; BODIES_COUNT], 0);
    for (i, record) in records.iter().enumerate() {
        assert_eq!(*record, Timestamp { time: 0, planet: i, x: 'x', y: 'y', z: 'z' });
    }
}

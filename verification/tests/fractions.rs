//! The same routines over exact fractions, where the laws of mechanics hold
//! without rounding.

use nbody::{
    advance, offset_momentum, simulate, sqr, starting_state, total_energy, Body, BODIES_COUNT,
};
use std::ops::{Add, Div, Mul, Sub};

/// A fraction in lowest terms with a positive denominator, or, with the
/// denominator 0, the outcome of a division by zero or of an overflow. Every
/// operation is defined for all operands: an undefined operand gives an
/// undefined result.
#[derive(Clone, Copy, Debug, PartialEq)]
struct Fraction {
    num: i128,
    den: i128,
}

const UNDEFINED: Fraction = Fraction { num: 0, den: 0 };

fn gcd(a: i128, b: i128) -> i128 {
    if b == 0 {
        a.abs()
    } else {
        gcd(b, a % b)
    }
}

fn frac(num: i128, den: i128) -> Fraction {
    reduced(Some(num), Some(den))
}

fn whole(n: i128) -> Fraction {
    frac(n, 1)
}

fn reduced(num: Option<i128>, den: Option<i128>) -> Fraction {
    match (num, den) {
        (Some(num), Some(den)) if den != 0 && num != i128::MIN && den != i128::MIN => {
            let sign = if den < 0 { -1 } else { 1 };
            let common = gcd(num, den);
            Fraction { num: sign * num / common, den: sign * den / common }
        }
        _ => UNDEFINED,
    }
}

fn cross(a: Fraction, b: Fraction, combine: fn(i128, i128) -> Option<i128>) -> Fraction {
    if a.den == 0 || b.den == 0 {
        return UNDEFINED;
    }
    let left = a.num.checked_mul(b.den);
    let right = b.num.checked_mul(a.den);
    let num = match (left, right) {
        (Some(left), Some(right)) => combine(left, right),
        _ => None,
    };
    reduced(num, a.den.checked_mul(b.den))
}

impl Add for Fraction {
    type Output = Fraction;

    fn add(self, other: Fraction) -> Fraction {
        cross(self, other, i128::checked_add)
    }
}

impl Sub for Fraction {
    type Output = Fraction;

    fn sub(self, other: Fraction) -> Fraction {
        cross(self, other, i128::checked_sub)
    }
}

impl Mul for Fraction {
    type Output = Fraction;

    fn mul(self, other: Fraction) -> Fraction {
        if self.den == 0 || other.den == 0 {
            return UNDEFINED;
        }
        reduced(self.num.checked_mul(other.num), self.den.checked_mul(other.den))
    }
}

impl Div for Fraction {
    type Output = Fraction;

    fn div(self, other: Fraction) -> Fraction {
        if self.den == 0 || other.den == 0 {
            return UNDEFINED;
        }
        reduced(self.num.checked_mul(other.den), self.den.checked_mul(other.num))
    }
}

/// The largest whole number whose square is at most `n`; 0 for a negative
/// `n`.
fn floor_root(n: i128) -> i128 {
    let mut r: i128 = 0;
    let mut bit: i128 = 1 << 62;
    while bit > 0 {
        if (r + bit) * (r + bit) <= n {
            r += bit;
        }
        bit >>= 1;
    }
    r
}

/// The square root of a fraction that is a perfect square; undefined for
/// any other.
fn exact_sqrt(x: Fraction) -> Fraction {
    let root = rough_sqrt(x);
    if root * root == x {
        root
    } else {
        UNDEFINED
    }
}

/// The square root of a fraction, rounded down to a multiple of the
/// reciprocal of its denominator; exact for a perfect square.
fn rough_sqrt(x: Fraction) -> Fraction {
    match x.num.checked_mul(x.den) {
        Some(product) if x.den != 0 => frac(floor_root(product), x.den),
        _ => UNDEFINED,
    }
}

fn body(position: [i128; 3], velocity: [i128; 3], mass: i128) -> Body<Fraction> {
    Body {
        position: [whole(position[0]), whole(position[1]), whole(position[2])],
        velocity: [whole(velocity[0]), whole(velocity[1]), whole(velocity[2])],
        mass: whole(mass),
    }
}

/// Five bodies on the x axis, so that every distance is a whole number.
fn row_of_bodies() -> [Body<Fraction>; BODIES_COUNT] {
    [
        body([0, 0, 0], [0, 0, 0], 60),
        body([1, 0, 0], [3, -1, 2], 3),
        body([3, 0, 0], [-2, 5, 0], 7),
        body([6, 0, 0], [1, 1, -4], 2),
        body([10, 0, 0], [0, -3, 1], 5),
    ]
}

fn momentum(bodies: &[Body<Fraction>; BODIES_COUNT]) -> [Fraction; 3] {
    let mut total = [whole(0); 3];
    for body in bodies {
        for m in 0..3 {
            total[m] = total[m] + body.mass * body.velocity[m];
        }
    }
    total
}

#[test]
fn sqr_of_a_fraction() {
    assert_eq!(sqr(frac(-3, 4)), frac(9, 16));
}

/// The fraction `digits` times ten to the power `exponent`.
fn decimal(digits: i64, exponent: i32) -> Fraction {
    let mut scale: i128 = 1;
    for _ in 0..exponent.unsigned_abs() {
        scale *= 10;
    }
    if exponent < 0 {
        frac(digits as i128, scale)
    } else {
        frac(digits as i128 * scale, 1)
    }
}

#[test]
fn starting_positions_are_the_listed_decimals() {
    let bodies = starting_state(&decimal);
    assert_eq!(bodies[0].position, [whole(0); 3]);
    assert_eq!(bodies[0].velocity, [whole(0); 3]);
    assert_eq!(bodies[1].position[0], frac(4_841_431_442_464_721, 1_000_000_000_000_000));
    assert_eq!(bodies[2].position[0], frac(834_336_671_824_458, 100_000_000_000_000));
    assert_eq!(bodies[4].position[1], frac(-25_919_314_609_987_964, 1_000_000_000_000_000));
}

#[test]
fn starting_velocities_are_scaled_to_years() {
    let bodies = starting_state(&decimal);
    let days_per_year = frac(36_524, 100);
    assert_eq!(
        bodies[1].velocity[0],
        frac(1_660_076_642_744_037, 1_000_000_000_000_000_000) * days_per_year
    );
    assert_eq!(
        bodies[3].velocity[2],
        frac(-29_658_956_854_023_756, 1_000_000_000_000_000_000_000) * days_per_year
    );
}

#[test]
fn solar_mass_is_four_pi_squared() {
    let bodies = starting_state(&decimal);
    let pi = frac(3_141_592_653_589_793, 1_000_000_000_000_000);
    assert_eq!(bodies[0].mass, whole(4) * pi * pi);
    assert!(bodies[0].mass.den != 0);
}

#[test]
fn fractions_are_total() {
    assert_eq!(whole(1) / whole(0), UNDEFINED);
    assert_eq!(UNDEFINED + whole(1), UNDEFINED);
    assert_eq!(whole(i128::MAX) * whole(2), UNDEFINED);
    assert_eq!(exact_sqrt(whole(2)), UNDEFINED);
    assert_eq!(exact_sqrt(frac(9, 4)), frac(3, 2));
    assert_eq!(rough_sqrt(whole(-4)), whole(0));
}

#[test]
fn coincident_bodies_give_an_undefined_velocity() {
    let mut bodies = row_of_bodies();
    bodies[1].position = bodies[0].position;
    advance(&mut bodies, frac(1, 100), &exact_sqrt);
    assert_eq!(bodies[0].velocity[0], UNDEFINED);
    assert_eq!(bodies[2].mass, whole(7));
}

#[test]
fn momentum_is_exactly_zero_after_offset() {
    let mut bodies = row_of_bodies();
    offset_momentum(&mut bodies, whole(0));
    // -(3 * 3 - 2 * 7 + 1 * 2 + 0 * 5) / 60 and so on
    assert_eq!(bodies[0].velocity, [frac(1, 20), frac(-19, 60), frac(-1, 20)]);
    assert_eq!(momentum(&bodies), [whole(0); 3]);
}

#[test]
fn a_step_conserves_momentum_exactly() {
    let mut bodies = row_of_bodies();
    let before = momentum(&bodies);
    advance(&mut bodies, frac(1, 100), &exact_sqrt);
    assert_eq!(momentum(&bodies), before);
    assert!(bodies[1].velocity != row_of_bodies()[1].velocity);
}

#[test]
fn momentum_is_conserved_whatever_the_root() {
    let mut bodies = [
        body([0, 0, 0], [0, 1, 0], 9),
        body([2, 1, -1], [3, -1, 2], 3),
        body([-3, 5, 2], [-2, 5, 0], 7),
        body([6, -4, 1], [1, 1, -4], 2),
        body([1, 7, -5], [0, -3, 1], 5),
    ];
    let before = momentum(&bodies);
    let trajectory = simulate(&mut bodies, 1, frac(1, 4), &rough_sqrt);
    assert_eq!(trajectory.len(), 1);
    assert_eq!(momentum(&bodies), before);
}

#[test]
fn kicks_are_exactly_in_inverse_ratio_of_the_masses() {
    let mut bodies = [
        body([0, 0, 0], [1, 2, 3], 3),
        body([3, 4, 12], [-1, 0, 2], 7),
        body([0, 1000, 0], [0, 0, 0], 0),
        body([0, 0, 1000], [0, 0, 0], 0),
        body([1000, 0, 0], [0, 0, 0], 0),
    ];
    let before = bodies;
    let step = frac(1, 100);
    advance(&mut bodies, step, &rough_sqrt);
    // distance 13: the magnitude is the step over 13 cubed
    let magnitude = step / whole(13 * 13 * 13);
    for m in 0..3 {
        let displacement = before[0].position[m] - before[1].position[m];
        let first_change = bodies[0].velocity[m] - before[0].velocity[m];
        let second_change = bodies[1].velocity[m] - before[1].velocity[m];
        assert_eq!(first_change, whole(0) - displacement * (whole(7) * magnitude));
        assert_eq!(second_change, displacement * (whole(3) * magnitude));
        assert_eq!(first_change, whole(0) - frac(7, 3) * second_change);
    }
}

#[test]
fn a_step_moves_each_body_by_its_new_velocity() {
    let mut bodies = row_of_bodies();
    let before = bodies;
    let step = frac(1, 100);
    advance(&mut bodies, step, &exact_sqrt);
    for b in 0..BODIES_COUNT {
        for m in 0..3 {
            assert_eq!(bodies[b].position[m], before[b].position[m] + step * bodies[b].velocity[m]);
        }
        assert_eq!(bodies[b].mass, before[b].mass);
    }
}

#[test]
fn velocity_of_the_middle_body_after_a_step() {
    let mut bodies = row_of_bodies();
    advance(&mut bodies, whole(1), &exact_sqrt);
    // pulled towards 0 by 60 / 9 and 3 / 4, towards 10 by 2 / 9 and 5 / 49
    let pull = frac(2, 9) + frac(5, 49) - frac(60, 9) - frac(3, 4);
    assert_eq!(bodies[2].velocity, [whole(-2) + pull, whole(5), whole(0)]);
}

#[test]
fn energy_of_unit_masses_in_a_row() {
    let mut bodies = row_of_bodies();
    for b in 0..BODIES_COUNT {
        bodies[b] = body([b as i128, 0, 0], [0, 0, 0], 1);
    }
    // four pairs at distance 1, three at 2, two at 3, one at 4
    assert_eq!(total_energy(&bodies, whole(0), frac(1, 2), &exact_sqrt), frac(-77, 12));
}

#[test]
fn energy_with_motion() {
    let bodies = row_of_bodies();
    let kinetic = frac(3 * 14, 2) + frac(7 * 29, 2) + frac(2 * 18, 2) + frac(5 * 10, 2);
    let potential = frac(60 * 3, 1) + frac(60 * 7, 3) + frac(60 * 2, 6) + frac(60 * 5, 10)
        + frac(3 * 7, 2) + frac(3 * 2, 5) + frac(3 * 5, 9) + frac(7 * 2, 3) + frac(7 * 5, 7)
        + frac(2 * 5, 4);
    assert_eq!(total_energy(&bodies, whole(0), frac(1, 2), &exact_sqrt), kinetic - potential);
}

//! The total energy of the system: the kinetic energy of every body, less
//! the potential energy of every pair.

use crate::body::{Body, System, BODIES_COUNT};
use crate::scalar::{
    exact_arithmetic, exact_root, root, sqr, sum_of_squares, total_arithmetic, total_root, Scalar,
};
use vstd::prelude::*;
#[allow(unused_imports)]
use vstd::std_specs::ops::{AddSpec, DivSpec, MulSpec, SubSpec};

verus! {

/// The kinetic energy of body `b`: half its mass times the square of its
/// speed.
pub open spec fn kinetic<T: Scalar>(s: System<T>, half: T, b: int) -> T {
    half.mul_spec(s[b].mass).mul_spec(
        sum_of_squares(s[b].velocity[0], s[b].velocity[1], s[b].velocity[2]),
    )
}

/// The distance between bodies `i` and `j`.
pub open spec fn distance<T: Scalar, F: Fn(T) -> T>(s: System<T>, sqrt: &F, i: int, j: int) -> T {
    root(
        sqrt,
        sum_of_squares(
            s[i].position[0].sub_spec(s[j].position[0]),
            s[i].position[1].sub_spec(s[j].position[1]),
            s[i].position[2].sub_spec(s[j].position[2]),
        ),
    )
}

/// The potential energy that bodies `i` and `j` share, without its sign: the
/// product of their masses over their distance.
pub open spec fn potential<T: Scalar, F: Fn(T) -> T>(s: System<T>, sqrt: &F, i: int, j: int) -> T {
    s[i].mass.mul_spec(s[j].mass).div_spec(distance(s, sqrt, i, j))
}

/// The energy summed so far when the bodies before `i` have been handled in
/// full, the kinetic energy of body `i` has been added, and the potential
/// energy of the pairs `(i, i + 1)` to `(i, j - 1)` has been subtracted. The
/// sum starts from `zero`.
pub open spec fn energy_through<T: Scalar, F: Fn(T) -> T>(
    s: System<T>,
    zero: T,
    half: T,
    sqrt: &F,
    i: nat,
    j: nat,
) -> T
    decreases i, j,
{
    if j > i + 1 {
        energy_through(s, zero, half, sqrt, i, (j - 1) as nat).sub_spec(
            potential(s, sqrt, i as int, j - 1),
        )
    } else if i == 0 {
        zero.add_spec(kinetic(s, half, 0))
    } else {
        energy_through(s, zero, half, sqrt, (i - 1) as nat, BODIES_COUNT as nat).add_spec(
            kinetic(s, half, i as int),
        )
    }
}

/// The total energy: each body in ascending order adds its kinetic energy
/// and then subtracts the potential energy it shares with each later body,
/// so that every unordered pair counts once.
pub open spec fn energy_of<T: Scalar, F: Fn(T) -> T>(
    s: System<T>,
    zero: T,
    half: T,
    sqrt: &F,
) -> T {
    energy_through(s, zero, half, sqrt, (BODIES_COUNT - 1) as nat, BODIES_COUNT as nat)
}

/// Computes the total energy of the system. `zero` and `half` are the
/// scalars 0 and 1/2. The bodies are only read.
#[verifier::loop_isolation(false)]
pub fn total_energy<T: Scalar, F: Fn(T) -> T>(
    bodies: &[Body<T>; BODIES_COUNT],
    zero: T,
    half: T,
    sqrt: &F,
) -> (e: T)
    requires
        total_arithmetic::<T>(),
        total_root(sqrt),
    ensures
        exact_arithmetic::<T>() && exact_root(sqrt) ==> e == energy_of(
            bodies.deep_view(),
            zero,
            half,
            sqrt,
        ),
{
    let ghost s = bodies.deep_view();
    let ghost exact = exact_arithmetic::<T>() && exact_root(sqrt);
    let mut e = zero;
    for i in 0..BODIES_COUNT
        invariant
            exact && i == 0 ==> e == zero,
            exact && i > 0 ==> e == energy_through(
                s,
                zero,
                half,
                sqrt,
                (i - 1) as nat,
                BODIES_COUNT as nat,
            ),
    {
        let body = &bodies[i];
        e = e + half * body.mass * (sqr(body.velocity[0]) + sqr(body.velocity[1]) + sqr(
            body.velocity[2],
        ));
        for j in i + 1..BODIES_COUNT
            invariant
                exact ==> e == energy_through(s, zero, half, sqrt, i as nat, j as nat),
        {
            let other = &bodies[j];
            e = e - body.mass * other.mass / sqrt(
                sqr(body.position[0] - other.position[0]) + sqr(
                    body.position[1] - other.position[1],
                ) + sqr(body.position[2] - other.position[2]),
            );
        }
    }
    e
}

} // verus!

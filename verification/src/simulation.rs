//! A run of the integrator: a number of steps from a given state, with the
//! position of every body recorded after each step.

use crate::body::{Body, System, BODIES_COUNT};
use crate::integrator::{advance, advanced};
use crate::scalar::{exact_arithmetic, exact_root, total_arithmetic, total_root, Scalar};
use crate::snapshot::{make_timestamps, timestamps, Timestamp};
use vstd::prelude::*;

verus! {

/// The system `n` time steps later.
pub open spec fn evolved<T: Scalar, F: Fn(T) -> T>(
    s: System<T>,
    dt: T,
    sqrt: &F,
    n: nat,
) -> System<T>
    decreases n,
{
    if n == 0 {
        s
    } else {
        advanced(evolved(s, dt, sqrt, (n - 1) as nat), dt, sqrt)
    }
}

/// Advances the system by `steps` time steps of length `dt` and records the
/// position of every body after each step. The record made after step
/// number `t`, counting from 0, carries the label `t`.
///
/// The outcome is a function of the initial state, the step and the number
/// of steps alone: the same run always ends in the same state with the same
/// records.
#[verifier::loop_isolation(false)]
pub fn simulate<T: Scalar, F: Fn(T) -> T>(
    bodies: &mut [Body<T>; BODIES_COUNT],
    steps: usize,
    dt: T,
    sqrt: &F,
) -> (trajectory: Vec<[Timestamp<T>; BODIES_COUNT]>)
    requires
        total_arithmetic::<T>(),
        total_root(sqrt),
    ensures
        trajectory.len() == steps,
        exact_arithmetic::<T>() && exact_root(sqrt) ==> final(bodies).deep_view() == evolved(
            old(bodies).deep_view(),
            dt,
            sqrt,
            steps as nat,
        ),
        forall|t: int|
            exact_arithmetic::<T>() && exact_root(sqrt) && 0 <= t < steps
                ==> (#[trigger] trajectory[t])@ == timestamps(
                evolved(old(bodies).deep_view(), dt, sqrt, (t + 1) as nat),
                t as usize,
            ),
        forall|t: int, i: int|
            0 <= t < steps && 0 <= i < BODIES_COUNT ==> (#[trigger] trajectory[t][i]).time == t
                && trajectory[t][i].planet == i,
        forall|b: int|
            0 <= b < BODIES_COUNT ==> (#[trigger] final(bodies)[b]).mass == old(bodies)[b].mass,
{
    let ghost s = bodies.deep_view();
    let ghost exact = exact_arithmetic::<T>() && exact_root(sqrt);
    let mut trajectory: Vec<[Timestamp<T>; BODIES_COUNT]> = Vec::new();
    for t in 0..steps
        invariant
            trajectory.len() == t,
            exact ==> bodies.deep_view() == evolved(s, dt, sqrt, t as nat),
            forall|u: int|
                exact && 0 <= u < t ==> (#[trigger] trajectory[u])@ == timestamps(
                    evolved(s, dt, sqrt, (u + 1) as nat),
                    u as usize,
                ),
            forall|u: int, i: int|
                0 <= u < t && 0 <= i < BODIES_COUNT ==> (#[trigger] trajectory[u][i]).time == u
                    && trajectory[u][i].planet == i,
            forall|b: int|
                0 <= b < BODIES_COUNT ==> (#[trigger] bodies[b]).mass == old(bodies)[b].mass,
    {
        advance(bodies, dt, sqrt);
        let records = make_timestamps(bodies, t);
        trajectory.push(records);
    }
    trajectory
}

/// Running `n` steps and then `m` more is running `n + m` steps.
pub proof fn law_runs_compose<T: Scalar, F: Fn(T) -> T>(
    s: System<T>,
    dt: T,
    sqrt: &F,
    n: nat,
    m: nat,
)
    ensures
        evolved(evolved(s, dt, sqrt, n), dt, sqrt, m) == evolved(s, dt, sqrt, n + m),
    decreases m,
{
    if m > 0 {
        law_runs_compose(s, dt, sqrt, n, (m - 1) as nat);
        assert(n + m - 1 == n + (m - 1));
    }
}

} // verus!

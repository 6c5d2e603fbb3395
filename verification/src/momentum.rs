//! Fixing the frame of reference: the star's velocity is chosen so that the
//! momenta of the planets are balanced.

use crate::body::{lemma_view_well_formed, well_formed, Body, BodyView, System, BODIES_COUNT};
use crate::scalar::{exact_arithmetic, total_arithmetic, Scalar};
use vstd::prelude::*;
#[allow(unused_imports)]
use vstd::std_specs::ops::{DivSpec, MulSpec, SubSpec};

verus! {

/// Coordinate `m` of the momentum of planet `p`, as a share of the star's
/// mass.
pub open spec fn momentum_share<T: Scalar>(s: System<T>, p: int, m: int) -> T {
    s[p].velocity[m].mul_spec(s[p].mass).div_spec(s[0].mass)
}

/// Coordinate `m` of the star's velocity once the shares of the first `n`
/// planets have been taken from `zero`, in ascending order of the planets.
pub open spec fn balancing_velocity<T: Scalar>(s: System<T>, zero: T, n: nat, m: int) -> T
    decreases n,
{
    if n == 0 {
        zero
    } else {
        balancing_velocity(s, zero, (n - 1) as nat, m).sub_spec(momentum_share(s, n as int, m))
    }
}

/// The system with the star's velocity set against the momenta of all the
/// planets. Nothing else changes.
pub open spec fn balanced<T: Scalar>(s: System<T>, zero: T) -> System<T> {
    s.update(
        0,
        BodyView {
            position: s[0].position,
            velocity: Seq::new(
                3,
                |m: int| balancing_velocity(s, zero, (BODIES_COUNT - 1) as nat, m),
            ),
            mass: s[0].mass,
        },
    )
}

/// The star's velocity has lost the shares of the first `n` planets, and its
/// first `m` coordinates that of planet `n + 1` as well.
spec fn balanced_through<T: Scalar>(
    bodies: [Body<T>; BODIES_COUNT],
    s: System<T>,
    zero: T,
    n: nat,
    m: int,
) -> bool {
    forall|c: int|
        0 <= c < 3 ==> #[trigger] bodies[0].velocity[c] == balancing_velocity(
            s,
            zero,
            if c < m {
                n + 1
            } else {
                n
            },
            c,
        )
}

/// Only the star's velocity differs between the two arrays.
spec fn same_but_star_velocity<T>(
    now: [Body<T>; BODIES_COUNT],
    before: [Body<T>; BODIES_COUNT],
) -> bool {
    &&& forall|p: int| 1 <= p < BODIES_COUNT ==> #[trigger] now[p] == before[p]
    &&& now[0].position == before[0].position
    &&& now[0].mass == before[0].mass
}

/// Sets the velocity of the star, body 0, so that it balances the momenta of
/// the planets: starting from `zero`, each planet's velocity times its mass,
/// divided by the star's mass, is subtracted in turn, axis by axis. The
/// velocity that the star had before is not read.
#[verifier::loop_isolation(false)]
pub fn offset_momentum<T: Scalar>(bodies: &mut [Body<T>; BODIES_COUNT], zero: T)
    requires
        total_arithmetic::<T>(),
    ensures
        exact_arithmetic::<T>() ==> final(bodies).deep_view() == balanced(
            old(bodies).deep_view(),
            zero,
        ),
        forall|p: int| 1 <= p < BODIES_COUNT ==> #[trigger] final(bodies)[p] == old(bodies)[p],
        final(bodies)[0].position == old(bodies)[0].position,
        final(bodies)[0].mass == old(bodies)[0].mass,
{
    let ghost s = bodies.deep_view();
    let ghost exact = exact_arithmetic::<T>();
    proof {
        lemma_view_well_formed(*bodies);
    }
    let star_mass = bodies[0].mass;
    bodies[0].velocity = [zero; 3];
    for p in 1..BODIES_COUNT
        invariant
            same_but_star_velocity(*bodies, *old(bodies)),
            exact ==> balanced_through(*bodies, s, zero, (p - 1) as nat, 0),
    {
        for m in 0..3usize
            invariant
                same_but_star_velocity(*bodies, *old(bodies)),
                exact ==> balanced_through(*bodies, s, zero, (p - 1) as nat, m as int),
        {
            let ghost before = *bodies;
            bodies[0].velocity[m] = bodies[0].velocity[m] - bodies[p].velocity[m] * bodies[p].mass
                / star_mass;
            proof {
                if exact {
                    assert forall|c: int| 0 <= c < 3 implies #[trigger] bodies[0].velocity[c]
                        == balancing_velocity(
                        s,
                        zero,
                        if c < m + 1 {
                            p as nat
                        } else {
                            (p - 1) as nat
                        },
                        c,
                    ) by {
                        let earlier = before[0].velocity[c];
                        if c == m {
                            assert(earlier == balancing_velocity(s, zero, (p - 1) as nat, c));
                        } else {
                            assert(bodies[0].velocity[c] == earlier);
                        }
                    }
                }
            }
        }
    }
    proof {
        if exact {
            assert(bodies.deep_view() =~~= balanced(s, zero));
        }
    }
}

/// Balancing reads only the planets and the star's mass: two systems that
/// agree on those get the same star velocity.
pub proof fn lemma_balancing_reads_planets<T: Scalar>(
    s: System<T>,
    t: System<T>,
    zero: T,
    n: nat,
    m: int,
)
    requires
        well_formed(s),
        well_formed(t),
        n < BODIES_COUNT,
        s[0].mass == t[0].mass,
        forall|p: int| 1 <= p < BODIES_COUNT ==> #[trigger] s[p] == t[p],
    ensures
        balancing_velocity(s, zero, n, m) == balancing_velocity(t, zero, n, m),
    decreases n,
{
    if n > 0 {
        lemma_balancing_reads_planets(s, t, zero, (n - 1) as nat, m);
    }
}

/// Balancing a second time, with no step of the integrator in between,
/// changes nothing: the planets' velocities are what they were, so the star
/// receives the velocity that it already has.
pub proof fn law_balancing_is_idempotent<T: Scalar>(s: System<T>, zero: T)
    requires
        well_formed(s),
    ensures
        balanced(balanced(s, zero), zero) == balanced(s, zero),
{
    let once = balanced(s, zero);
    let planets = (BODIES_COUNT - 1) as nat;
    assert forall|m: int| 0 <= m < 3 implies #[trigger] balancing_velocity(once, zero, planets, m)
        == balancing_velocity(s, zero, planets, m) by {
        lemma_balancing_reads_planets(once, s, zero, planets, m);
    }
    assert(balanced(once, zero) =~~= once);
}

} // verus!

//! One step of the integrator.
//!
//! A step has four phases, always in this order: the displacement vector of
//! every pair of bodies is measured; from each vector the magnitude of the
//! pair's interaction is computed; every pair changes the velocities of its
//! two bodies; every body moves along its new velocity. No position changes
//! before every velocity has received every kick.

use crate::body::{lemma_view_well_formed, Body, BodyView, System, BODIES_COUNT};
use crate::pairs::{
    lemma_pair_at_index, lemma_pair_index_at, lemma_pairs_before, pair_at, pair_index,
    pairs_before, INTERACTIONS,
};
use crate::scalar::{
    associative_multiplication, commutative_multiplication, exact_arithmetic, exact_root, root,
    sqr, sum_of_squares, total_arithmetic, total_root, Decimal, Scalar,
};
use vstd::prelude::*;
#[allow(unused_imports)]
use vstd::std_specs::ops::{AddSpec, DivSpec, MulSpec, SubSpec};

verus! {

/// The length of the time step for which the integrator is meant: a
/// hundredth of the unit of time.
pub const TIME_STEP: Decimal = (1, -2);

/// Coordinate `m` of the vector that points from the second body of pair `k`
/// to the first.
pub open spec fn displacement<T: Scalar>(s: System<T>, k: nat, m: int) -> T {
    s[pair_at(k).0].position[m].sub_spec(s[pair_at(k).1].position[m])
}

/// The displacement vectors of all pairs, by pair number.
pub open spec fn displacements<T: Scalar>(s: System<T>) -> Seq<Seq<T>> {
    Seq::new(INTERACTIONS as nat, |k: int| Seq::new(3, |m: int| displacement(s, k as nat, m)))
}

/// The interaction magnitude of a pair with displacement `d`: the time step
/// over the cube of the distance. The squares are added from the last
/// coordinate to the first.
pub open spec fn magnitude<T: Scalar, F: Fn(T) -> T>(d: Seq<T>, dt: T, sqrt: &F) -> T {
    let distance_squared = sum_of_squares(d[2], d[1], d[0]);
    dt.div_spec(distance_squared.mul_spec(root(sqrt, distance_squared)))
}

/// The interaction magnitudes of all pairs, by pair number.
pub open spec fn magnitudes<T: Scalar, F: Fn(T) -> T>(
    ds: Seq<Seq<T>>,
    dt: T,
    sqrt: &F,
) -> Seq<T> {
    Seq::new(INTERACTIONS as nat, |k: int| magnitude(ds[k], dt, sqrt))
}

/// Coordinate `m` of what pair `k` takes from the velocity of its first
/// body: the displacement scaled by the mass of the second body and the
/// pair's magnitude.
pub open spec fn kick_on_first<T: Scalar>(
    s: System<T>,
    ds: Seq<Seq<T>>,
    mags: Seq<T>,
    k: nat,
    m: int,
) -> T {
    ds[k as int][m].mul_spec(s[pair_at(k).1].mass.mul_spec(mags[k as int]))
}

/// Coordinate `m` of what pair `k` gives to the velocity of its second body:
/// the same displacement scaled by the mass of the first body and the same
/// magnitude.
pub open spec fn kick_on_second<T: Scalar>(
    s: System<T>,
    ds: Seq<Seq<T>>,
    mags: Seq<T>,
    k: nat,
    m: int,
) -> T {
    ds[k as int][m].mul_spec(s[pair_at(k).0].mass.mul_spec(mags[k as int]))
}

/// Coordinate `m` of the velocity of body `b` once the first `n` pairs have
/// acted, each on its two bodies and on no other.
pub open spec fn kicked_velocity<T: Scalar>(
    s: System<T>,
    ds: Seq<Seq<T>>,
    mags: Seq<T>,
    n: nat,
    b: int,
    m: int,
) -> T
    decreases n,
{
    if n == 0 {
        s[b].velocity[m]
    } else {
        let k = (n - 1) as nat;
        let before = kicked_velocity(s, ds, mags, k, b, m);
        if b == pair_at(k).0 {
            before.sub_spec(kick_on_first(s, ds, mags, k, m))
        } else if b == pair_at(k).1 {
            before.add_spec(kick_on_second(s, ds, mags, k, m))
        } else {
            before
        }
    }
}

/// The system after the first `n` pairs have acted on the velocities.
pub open spec fn kicked_by<T: Scalar>(
    s: System<T>,
    ds: Seq<Seq<T>>,
    mags: Seq<T>,
    n: nat,
) -> System<T> {
    Seq::new(
        BODIES_COUNT as nat,
        |b: int|
            BodyView {
                position: s[b].position,
                velocity: Seq::new(3, |m: int| kicked_velocity(s, ds, mags, n, b, m)),
                mass: s[b].mass,
            },
    )
}

/// The system after every pair has acted on the velocities.
pub open spec fn kicked<T: Scalar>(s: System<T>, ds: Seq<Seq<T>>, mags: Seq<T>) -> System<T> {
    kicked_by(s, ds, mags, INTERACTIONS as nat)
}

/// The system after every body has moved along its velocity for one step.
pub open spec fn drifted<T: Scalar>(s: System<T>, dt: T) -> System<T> {
    Seq::new(
        BODIES_COUNT as nat,
        |b: int|
            BodyView {
                position: Seq::new(
                    3,
                    |m: int| s[b].position[m].add_spec(dt.mul_spec(s[b].velocity[m])),
                ),
                velocity: s[b].velocity,
                mass: s[b].mass,
            },
    )
}

/// The system one time step later.
pub open spec fn advanced<T: Scalar, F: Fn(T) -> T>(s: System<T>, dt: T, sqrt: &F) -> System<T> {
    let ds = displacements(s);
    drifted(kicked(s, ds, magnitudes(ds, dt, sqrt)), dt)
}

/// The rows of a table of vectors, as sequences.
pub open spec fn rows<T>(table: [[T; 3]; INTERACTIONS]) -> Seq<Seq<T>> {
    Seq::new(INTERACTIONS as nat, |k: int| table[k]@)
}

/// The first `k` rows of the table, and the first `m` coordinates of row
/// `k`, hold the displacements of their pairs.
spec fn measured<T: Scalar>(table: [[T; 3]; INTERACTIONS], s: System<T>, k: int, m: int) -> bool {
    forall|p: int, n: int|
        0 <= n < 3 && (0 <= p < k || (p == k && n < m)) ==> #[trigger] table[p][n] == displacement(
            s,
            p as nat,
            n,
        )
}

/// Every velocity has received the kicks of the first `k` pairs, and the
/// first `m` coordinates those of pair `k` as well.
spec fn kicked_through<T: Scalar>(
    bodies: [Body<T>; BODIES_COUNT],
    s: System<T>,
    ds: Seq<Seq<T>>,
    mags: Seq<T>,
    k: nat,
    m: int,
) -> bool {
    forall|b: int, n: int|
        0 <= b < BODIES_COUNT && 0 <= n < 3 ==> #[trigger] bodies[b].velocity[n]
            == kicked_velocity(
            s,
            ds,
            mags,
            if n < m {
                k + 1
            } else {
                k
            },
            b,
            n,
        )
}

/// The bodies before `b`, and the first `m` coordinates of body `b`, have
/// moved; the rest are where they were in `s`.
spec fn drifted_through<T: Scalar>(
    bodies: [Body<T>; BODIES_COUNT],
    s: System<T>,
    dt: T,
    b: int,
    m: int,
) -> bool {
    forall|a: int, n: int|
        0 <= a < BODIES_COUNT && 0 <= n < 3 ==> #[trigger] bodies[a].position[n] == if a < b || (a
            == b && n < m) {
            s[a].position[n].add_spec(dt.mul_spec(s[a].velocity[n]))
        } else {
            s[a].position[n]
        }
}

/// The two arrays agree on every mass and every position.
spec fn same_masses_and_positions<T>(
    now: [Body<T>; BODIES_COUNT],
    before: [Body<T>; BODIES_COUNT],
) -> bool {
    forall|b: int|
        0 <= b < BODIES_COUNT ==> (#[trigger] now[b]).position == before[b].position && now[b].mass
            == before[b].mass
}

/// The two arrays agree on every mass and every velocity.
spec fn same_masses_and_velocities<T>(
    now: [Body<T>; BODIES_COUNT],
    before: [Body<T>; BODIES_COUNT],
) -> bool {
    forall|b: int|
        0 <= b < BODIES_COUNT ==> (#[trigger] now[b]).velocity == before[b].velocity && now[b].mass
            == before[b].mass
}

/// Measures the displacement vector of every pair.
#[verifier::loop_isolation(false)]
fn measure_displacements<T: Scalar>(bodies: &[Body<T>; BODIES_COUNT]) -> (deltas: [[T;
    3]; INTERACTIONS])
    requires
        total_arithmetic::<T>(),
    ensures
        exact_arithmetic::<T>() ==> rows(deltas) == displacements(bodies.deep_view()),
{
    let ghost s = bodies.deep_view();
    let ghost exact = exact_arithmetic::<T>();
    // Every entry is overwritten below; the initial value is never read.
    let mut deltas = [[bodies[0].mass; 3]; INTERACTIONS];
    let mut k: usize = 0;
    proof {
        lemma_pairs_before(0);
    }
    for i in 0..BODIES_COUNT - 1
        invariant
            k == pairs_before(i as int),
            exact ==> measured(deltas, s, k as int, 0),
    {
        for j in i + 1..BODIES_COUNT
            invariant
                k == pair_index(i as int, j as int),
                exact ==> measured(deltas, s, k as int, 0),
        {
            proof {
                lemma_pair_at_index(i as int, j as int);
            }
            for m in 0..3usize
                invariant
                    exact ==> measured(deltas, s, k as int, m as int),
            {
                deltas[k][m] = bodies[i].position[m] - bodies[j].position[m];
            }
            k += 1;
        }
        proof {
            lemma_pairs_before(i as int + 1);
        }
    }
    proof {
        lemma_pairs_before(BODIES_COUNT as int);
        if exact {
            assert(rows(deltas) =~~= displacements(s));
        }
    }
    deltas
}

/// Computes the interaction magnitude of every pair from its displacement.
#[verifier::loop_isolation(false)]
fn measure_magnitudes<T: Scalar, F: Fn(T) -> T>(
    deltas: &[[T; 3]; INTERACTIONS],
    dt: T,
    sqrt: &F,
) -> (mags: [T; INTERACTIONS])
    requires
        total_arithmetic::<T>(),
        total_root(sqrt),
    ensures
        exact_arithmetic::<T>() && exact_root(sqrt) ==> mags@ == magnitudes(
            rows(*deltas),
            dt,
            sqrt,
        ),
{
    let ghost exact = exact_arithmetic::<T>() && exact_root(sqrt);
    // Every entry is overwritten below; the initial value is never read.
    let mut mags = [dt; INTERACTIONS];
    for k in 0..INTERACTIONS
        invariant
            forall|p: int|
                exact && 0 <= p < k ==> #[trigger] mags[p] == magnitude(deltas[p]@, dt, sqrt),
    {
        let distance_squared = sqr(deltas[k][2]) + sqr(deltas[k][1]) + sqr(deltas[k][0]);
        mags[k] = dt / (distance_squared * sqrt(distance_squared));
    }
    proof {
        if exact {
            assert(mags@ =~= magnitudes(rows(*deltas), dt, sqrt));
        }
    }
    mags
}

/// Lets every pair act on the velocities of its two bodies.
#[verifier::loop_isolation(false)]
fn apply_kicks<T: Scalar>(
    bodies: &mut [Body<T>; BODIES_COUNT],
    deltas: &[[T; 3]; INTERACTIONS],
    mags: &[T; INTERACTIONS],
)
    requires
        total_arithmetic::<T>(),
    ensures
        exact_arithmetic::<T>() ==> final(bodies).deep_view() == kicked(
            old(bodies).deep_view(),
            rows(*deltas),
            mags@,
        ),
        same_masses_and_positions(*final(bodies), *old(bodies)),
{
    let ghost s = bodies.deep_view();
    let ghost ds = rows(*deltas);
    let ghost ms = mags@;
    let ghost exact = exact_arithmetic::<T>();
    let mut k: usize = 0;
    proof {
        lemma_pairs_before(0);
        lemma_view_well_formed(*bodies);
    }
    for i in 0..BODIES_COUNT - 1
        invariant
            k == pairs_before(i as int),
            same_masses_and_positions(*bodies, *old(bodies)),
            exact ==> kicked_through(*bodies, s, ds, ms, k as nat, 0),
    {
        for j in i + 1..BODIES_COUNT
            invariant
                k == pair_index(i as int, j as int),
                same_masses_and_positions(*bodies, *old(bodies)),
                exact ==> kicked_through(*bodies, s, ds, ms, k as nat, 0),
        {
            proof {
                lemma_pair_at_index(i as int, j as int);
            }
            let i_mass_mag = bodies[i].mass * mags[k];
            let j_mass_mag = bodies[j].mass * mags[k];
            for m in 0..3usize
                invariant
                    same_masses_and_positions(*bodies, *old(bodies)),
                    exact ==> kicked_through(*bodies, s, ds, ms, k as nat, m as int),
            {
                let ghost before = *bodies;
                bodies[i].velocity[m] = bodies[i].velocity[m] - deltas[k][m] * j_mass_mag;
                bodies[j].velocity[m] = bodies[j].velocity[m] + deltas[k][m] * i_mass_mag;
                proof {
                    if exact {
                        assert forall|b: int, n: int|
                            0 <= b < BODIES_COUNT && 0 <= n < 3 implies (
                        #[trigger] bodies[b].velocity[n]) == kicked_velocity(
                            s,
                            ds,
                            ms,
                            if n < m + 1 {
                                (k + 1) as nat
                            } else {
                                k as nat
                            },
                            b,
                            n,
                        ) by {
                            let earlier = before[b].velocity[n];
                            if n == m {
                                assert(earlier == kicked_velocity(s, ds, ms, k as nat, b, n));
                            } else {
                                assert(bodies[b].velocity[n] == earlier);
                            }
                        }
                    }
                }
            }
            k += 1;
        }
        proof {
            lemma_pairs_before(i as int + 1);
        }
    }
    proof {
        lemma_pairs_before(BODIES_COUNT as int);
        if exact {
            assert(bodies.deep_view() =~~= kicked(s, ds, ms));
        }
    }
}

/// Moves every body along its velocity for one time step.
#[verifier::loop_isolation(false)]
fn drift<T: Scalar>(bodies: &mut [Body<T>; BODIES_COUNT], dt: T)
    requires
        total_arithmetic::<T>(),
    ensures
        exact_arithmetic::<T>() ==> final(bodies).deep_view() == drifted(
            old(bodies).deep_view(),
            dt,
        ),
        same_masses_and_velocities(*final(bodies), *old(bodies)),
{
    let ghost s = bodies.deep_view();
    let ghost exact = exact_arithmetic::<T>();
    proof {
        lemma_view_well_formed(*bodies);
    }
    for b in 0..BODIES_COUNT
        invariant
            same_masses_and_velocities(*bodies, *old(bodies)),
            exact ==> drifted_through(*bodies, s, dt, b as int, 0),
    {
        for m in 0..3usize
            invariant
                same_masses_and_velocities(*bodies, *old(bodies)),
                exact ==> drifted_through(*bodies, s, dt, b as int, m as int),
        {
            let ghost before = *bodies;
            bodies[b].position[m] = bodies[b].position[m] + dt * bodies[b].velocity[m];
            proof {
                if exact {
                    assert forall|a: int, n: int|
                        0 <= a < BODIES_COUNT && 0 <= n < 3 implies #[trigger] bodies[a].position[n]
                        == if a < b || (a == b && n < m + 1) {
                        s[a].position[n].add_spec(dt.mul_spec(s[a].velocity[n]))
                    } else {
                        s[a].position[n]
                    } by {
                        let earlier = before[a].position[n];
                        if a == b && n == m {
                            assert(earlier == s[a].position[n]);
                        } else {
                            assert(bodies[a].position[n] == earlier);
                        }
                    }
                }
            }
        }
    }
    proof {
        if exact {
            assert(bodies.deep_view() =~~= drifted(s, dt));
        }
    }
}

/// Advances the system by one time step of length `dt`.
///
/// Each unordered pair of bodies, in ascending lexicographic order, changes
/// the velocities of its two bodies by opposite impulses; only then does
/// every body move along its new velocity. Masses never change.
pub fn advance<T: Scalar, F: Fn(T) -> T>(bodies: &mut [Body<T>; BODIES_COUNT], dt: T, sqrt: &F)
    requires
        total_arithmetic::<T>(),
        total_root(sqrt),
    ensures
        exact_arithmetic::<T>() && exact_root(sqrt) ==> final(bodies).deep_view() == advanced(
            old(bodies).deep_view(),
            dt,
            sqrt,
        ),
        forall|b: int|
            0 <= b < BODIES_COUNT ==> (#[trigger] final(bodies)[b]).mass == old(bodies)[b].mass,
{
    let deltas = measure_displacements(bodies);
    let mags = measure_magnitudes(&deltas, dt, sqrt);
    apply_kicks(bodies, &deltas, &mags);
    drift(bodies, dt);
}

/// A pair acts on its two bodies in opposite directions and on no other
/// body: the first loses the shared displacement scaled by the other's mass,
/// the second gains it scaled by the first's mass.
pub proof fn law_kicks_are_opposite<T: Scalar>(
    s: System<T>,
    ds: Seq<Seq<T>>,
    mags: Seq<T>,
    k: nat,
    m: int,
)
    requires
        k < INTERACTIONS,
    ensures
        pair_at(k).0 != pair_at(k).1,
        kicked_velocity(s, ds, mags, k + 1, pair_at(k).0, m) == kicked_velocity(
            s,
            ds,
            mags,
            k,
            pair_at(k).0,
            m,
        ).sub_spec(kick_on_first(s, ds, mags, k, m)),
        kicked_velocity(s, ds, mags, k + 1, pair_at(k).1, m) == kicked_velocity(
            s,
            ds,
            mags,
            k,
            pair_at(k).1,
            m,
        ).add_spec(kick_on_second(s, ds, mags, k, m)),
        forall|b: int|
            b != pair_at(k).0 && b != pair_at(k).1 ==> #[trigger] kicked_velocity(
                s,
                ds,
                mags,
                k + 1,
                b,
                m,
            ) == kicked_velocity(s, ds, mags, k, b, m),
{
    lemma_pair_index_at(k);
}

/// Where multiplication is commutative and associative, a pair changes the
/// momenta of its two bodies by the same amount: the first body's mass times
/// what it loses equals the second body's mass times what it gains. The
/// changes of velocity are thus in the inverse ratio of the masses.
pub proof fn law_kicks_exchange_momentum<T: Scalar>(
    s: System<T>,
    ds: Seq<Seq<T>>,
    mags: Seq<T>,
    k: nat,
    m: int,
)
    requires
        commutative_multiplication::<T>(),
        associative_multiplication::<T>(),
    ensures
        s[pair_at(k).0].mass.mul_spec(kick_on_first(s, ds, mags, k, m)) == s[pair_at(
            k,
        ).1].mass.mul_spec(kick_on_second(s, ds, mags, k, m)),
{
    let first = s[pair_at(k).0].mass;
    let second = s[pair_at(k).1].mass;
    let d = ds[k as int][m];
    let g = mags[k as int];
    let dg = d.mul_spec(g);
    // d * (second * g) == second * (d * g)
    assert(d.mul_spec(second.mul_spec(g)) == d.mul_spec(second).mul_spec(g));
    assert(d.mul_spec(second) == second.mul_spec(d));
    assert(second.mul_spec(d).mul_spec(g) == second.mul_spec(dg));
    // d * (first * g) == first * (d * g)
    assert(d.mul_spec(first.mul_spec(g)) == d.mul_spec(first).mul_spec(g));
    assert(d.mul_spec(first) == first.mul_spec(d));
    assert(first.mul_spec(d).mul_spec(g) == first.mul_spec(dg));
    // first * (second * (d * g)) == second * (first * (d * g))
    assert(first.mul_spec(second.mul_spec(dg)) == first.mul_spec(second).mul_spec(dg));
    assert(first.mul_spec(second) == second.mul_spec(first));
    assert(second.mul_spec(first).mul_spec(dg) == second.mul_spec(first.mul_spec(dg)));
}

} // verus!

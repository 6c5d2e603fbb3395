//! Conservation of momentum.
//!
//! Where the scalars form a commutative ring, the total momentum of the
//! system is the same after a step as before it, and it is zero once the
//! star has been set against the planets. Rounding arithmetic is no ring:
//! there these laws hold only up to the rounding error.

use crate::body::{well_formed, System, BODIES_COUNT};
use crate::integrator::{
    advanced, displacements, kick_on_first, kick_on_second, kicked_by, kicked_velocity,
    law_kicks_are_opposite, law_kicks_exchange_momentum, magnitudes,
};
use crate::momentum::{balanced, balancing_velocity, momentum_share};
use crate::pairs::{lemma_pair_index_at, pair_at, INTERACTIONS};
use crate::scalar::{associative_multiplication, commutative_multiplication, Scalar};
use crate::simulation::evolved;
use vstd::prelude::*;
#[allow(unused_imports)]
use vstd::std_specs::ops::{AddSpec, DivSpec, MulSpec, SubSpec};

verus! {

/// The scalars form a commutative ring under `+`, `-` and `*`: addition and
/// multiplication are commutative and associative, subtraction undoes
/// addition, and multiplication distributes over addition.
#[verifier::opaque]
pub open spec fn ring_arithmetic<T: Scalar>() -> bool {
    &&& forall|x: T, y: T| #[trigger] x.add_spec(y) == y.add_spec(x)
    &&& forall|x: T, y: T, z: T| #[trigger] x.add_spec(y.add_spec(z)) == x.add_spec(y).add_spec(z)
    &&& forall|x: T, y: T| #[trigger] x.sub_spec(y).add_spec(y) == x
    &&& forall|x: T, y: T| #[trigger] x.add_spec(y).sub_spec(y) == x
    &&& forall|x: T, y: T, z: T|
        #[trigger] x.mul_spec(y.add_spec(z)) == x.mul_spec(y).add_spec(x.mul_spec(z))
    &&& commutative_multiplication::<T>()
    &&& associative_multiplication::<T>()
}

/// Adding `zero` changes no scalar.
pub open spec fn additive_identity<T: Scalar>(zero: T) -> bool {
    forall|x: T| #[trigger] x.add_spec(zero) == x
}

/// Division by `d` is undone by multiplication with `d`, as it is for every
/// `d` but zero in a field.
pub open spec fn invertible<T: Scalar>(d: T) -> bool {
    forall|x: T| d.mul_spec(#[trigger] x.div_spec(d)) == x
}

/// Coordinate `m` of the momentum of body `b`.
pub open spec fn momentum_of<T: Scalar>(s: System<T>, b: int, m: int) -> T {
    s[b].mass.mul_spec(s[b].velocity[m])
}

/// The sum of the first `n` terms, added in ascending order; `n` is at
/// least 1.
pub open spec fn sum<T: Scalar>(terms: Seq<T>, n: nat) -> T
    decreases n,
{
    if n <= 1 {
        terms[0]
    } else {
        sum(terms, (n - 1) as nat).add_spec(terms[n - 1])
    }
}

/// Coordinate `m` of the momenta of all bodies.
pub open spec fn momenta<T: Scalar>(s: System<T>, m: int) -> Seq<T> {
    Seq::new(BODIES_COUNT as nat, |b: int| momentum_of(s, b, m))
}

/// Coordinate `m` of the total momentum of the system.
pub open spec fn total_momentum<T: Scalar>(s: System<T>, m: int) -> T {
    sum(momenta(s, m), BODIES_COUNT as nat)
}

proof fn add_commutes<T: Scalar>(x: T, y: T)
    requires
        ring_arithmetic::<T>(),
    ensures
        x.add_spec(y) == y.add_spec(x),
{
    reveal(ring_arithmetic);
}

proof fn add_associates<T: Scalar>(x: T, y: T, z: T)
    requires
        ring_arithmetic::<T>(),
    ensures
        x.add_spec(y.add_spec(z)) == x.add_spec(y).add_spec(z),
{
    reveal(ring_arithmetic);
}

proof fn sub_then_add<T: Scalar>(x: T, y: T)
    requires
        ring_arithmetic::<T>(),
    ensures
        x.sub_spec(y).add_spec(y) == x,
{
    reveal(ring_arithmetic);
}

proof fn add_then_sub<T: Scalar>(x: T, y: T)
    requires
        ring_arithmetic::<T>(),
    ensures
        x.add_spec(y).sub_spec(y) == x,
{
    reveal(ring_arithmetic);
}

proof fn mul_distributes_over_add<T: Scalar>(x: T, y: T, z: T)
    requires
        ring_arithmetic::<T>(),
    ensures
        x.mul_spec(y.add_spec(z)) == x.mul_spec(y).add_spec(x.mul_spec(z)),
{
    reveal(ring_arithmetic);
}

/// Multiplication distributes over subtraction as well.
proof fn mul_distributes_over_sub<T: Scalar>(x: T, y: T, z: T)
    requires
        ring_arithmetic::<T>(),
    ensures
        x.mul_spec(y.sub_spec(z)) == x.mul_spec(y).sub_spec(x.mul_spec(z)),
{
    let d = y.sub_spec(z);
    sub_then_add(y, z);
    mul_distributes_over_add(x, d, z);
    add_then_sub(x.mul_spec(d), x.mul_spec(z));
}

/// A term that is added last may as well be added before the one that
/// precedes it.
proof fn add_swaps<T: Scalar>(x: T, y: T, z: T)
    requires
        ring_arithmetic::<T>(),
    ensures
        x.add_spec(y).add_spec(z) == x.add_spec(z).add_spec(y),
{
    add_associates(x, y, z);
    add_commutes(y, z);
    add_associates(x, z, y);
}

/// Raising one term of a sum by `x` raises the sum by `x`.
proof fn lemma_sum_of_raised_term<T: Scalar>(terms: Seq<T>, p: int, x: T, n: nat)
    requires
        ring_arithmetic::<T>(),
        0 <= p < n <= terms.len(),
    ensures
        sum(terms.update(p, terms[p].add_spec(x)), n) == sum(terms, n).add_spec(x),
    decreases n,
{
    let raised = terms.update(p, terms[p].add_spec(x));
    if n > 1 {
        let rest = sum(terms, (n - 1) as nat);
        if p == n - 1 {
            assert(sum(raised, (n - 1) as nat) == rest) by {
                lemma_sum_reads_its_terms(raised, terms, (n - 1) as nat);
            }
            add_associates(rest, terms[p], x);
        } else {
            lemma_sum_of_raised_term(terms, p, x, (n - 1) as nat);
            add_swaps(rest, x, terms[n - 1]);
        }
    }
}

/// A sum depends on the terms that it adds and on no other.
proof fn lemma_sum_reads_its_terms<T: Scalar>(a: Seq<T>, b: Seq<T>, n: nat)
    requires
        1 <= n <= a.len(),
        n <= b.len(),
        forall|i: int| 0 <= i < n ==> a[i] == b[i],
    ensures
        sum(a, n) == sum(b, n),
    decreases n,
{
    if n > 1 {
        lemma_sum_reads_its_terms(a, b, (n - 1) as nat);
    }
}

/// Lowering one term of a sum by `x` and raising another by `x` leaves the
/// sum as it was.
proof fn lemma_sum_of_exchange<T: Scalar>(terms: Seq<T>, p: int, q: int, x: T, after: Seq<T>)
    requires
        ring_arithmetic::<T>(),
        0 <= p < terms.len(),
        0 <= q < terms.len(),
        p != q,
        after.len() == terms.len(),
        after[p] == terms[p].sub_spec(x),
        after[q] == terms[q].add_spec(x),
        forall|i: int| 0 <= i < terms.len() && i != p && i != q ==> after[i] == terms[i],
    ensures
        sum(after, terms.len()) == sum(terms, terms.len()),
{
    let n = terms.len();
    // Lower term p first, then raise term q.
    let lowered = terms.update(p, terms[p].sub_spec(x));
    assert(after =~= lowered.update(q, lowered[q].add_spec(x)));
    lemma_sum_of_raised_term(lowered, q, x, n);
    // Raising the lowered term again gives the terms back.
    sub_then_add(terms[p], x);
    assert(terms =~= lowered.update(p, lowered[p].add_spec(x)));
    lemma_sum_of_raised_term(lowered, p, x, n);
}

/// Every multiple of zero is zero.
proof fn lemma_multiple_of_zero<T: Scalar>(x: T, zero: T)
    requires
        ring_arithmetic::<T>(),
        additive_identity(zero),
    ensures
        x.mul_spec(zero) == zero,
{
    let z = x.mul_spec(zero);
    // z + z == z
    assert(zero.add_spec(zero) == zero);
    mul_distributes_over_add(x, zero, zero);
    // hence z == (z + z) - z == z - z == (zero + z) - z == zero
    add_then_sub(z, z);
    add_commutes(zero, z);
    assert(zero.add_spec(z) == z);
    add_then_sub(zero, z);
}

/// Where term 0 is what is left of `left(0)` after the terms 1 to `n` have
/// been taken from it one by one, the sum of the terms 0 to `n` is `left(0)`.
proof fn lemma_sum_restores<T: Scalar>(terms: Seq<T>, left: spec_fn(nat) -> T, n: nat)
    requires
        ring_arithmetic::<T>(),
        n < terms.len(),
        terms[0] == left(n),
        forall|p: nat|
            1 <= p <= n ==> #[trigger] left(p) == left((p - 1) as nat).sub_spec(terms[p as int]),
    ensures
        sum(terms, n + 1) == left(0),
    decreases n,
{
    if n > 0 {
        let earlier = terms.update(0, left((n - 1) as nat));
        assert(left(n) == left((n - 1) as nat).sub_spec(terms[n as int]));
        sub_then_add(left((n - 1) as nat), terms[n as int]);
        assert(earlier =~= terms.update(0, terms[0].add_spec(terms[n as int])));
        lemma_sum_of_raised_term(terms, 0, terms[n as int], n);
        lemma_sum_restores(earlier, left, (n - 1) as nat);
    }
}

/// In a commutative ring in which the star's mass can be divided by, the
/// total momentum is zero along every axis once the star has been set
/// against the planets.
pub proof fn law_balanced_momentum_is_zero<T: Scalar>(s: System<T>, zero: T, m: int)
    requires
        ring_arithmetic::<T>(),
        additive_identity(zero),
        invertible(s[0].mass),
        well_formed(s),
        0 <= m < 3,
    ensures
        total_momentum(balanced(s, zero), m) == zero,
{
    let star = s[0].mass;
    let after = balanced(s, zero);
    let terms = momenta(after, m);
    // What is left of the star's momentum after the first `n` planets.
    let left = |n: nat| star.mul_spec(balancing_velocity(s, zero, n, m));
    assert forall|p: nat| 1 <= p < BODIES_COUNT implies #[trigger] left(p) == left(
        (p - 1) as nat,
    ).sub_spec(terms[p as int]) by {
        let share = momentum_share(s, p as int, m);
        mul_distributes_over_sub(star, balancing_velocity(s, zero, (p - 1) as nat, m), share);
        assert(star.mul_spec(share) == s[p as int].velocity[m].mul_spec(s[p as int].mass));
        assert(s[p as int].velocity[m].mul_spec(s[p as int].mass) == terms[p as int]) by {
            reveal(ring_arithmetic);
        }
    }
    lemma_sum_restores(terms, left, (BODIES_COUNT - 1) as nat);
    lemma_multiple_of_zero(star, zero);
}

/// In a commutative ring no pair changes the total momentum.
proof fn lemma_kicks_conserve_momentum<T: Scalar>(
    s: System<T>,
    ds: Seq<Seq<T>>,
    mags: Seq<T>,
    n: nat,
    m: int,
)
    requires
        ring_arithmetic::<T>(),
        well_formed(s),
        n <= INTERACTIONS,
        0 <= m < 3,
    ensures
        total_momentum(kicked_by(s, ds, mags, n), m) == total_momentum(s, m),
    decreases n,
{
    if n == 0 {
        assert(momenta(kicked_by(s, ds, mags, 0), m) =~= momenta(s, m));
    } else {
        let k = (n - 1) as nat;
        lemma_kicks_conserve_momentum(s, ds, mags, k, m);
        lemma_pair_index_at(k);
        law_kicks_are_opposite(s, ds, mags, k, m);
        let i = pair_at(k).0;
        let j = pair_at(k).1;
        let before = momenta(kicked_by(s, ds, mags, k), m);
        let after = momenta(kicked_by(s, ds, mags, n), m);
        let lost = kick_on_first(s, ds, mags, k, m);
        let gained = kick_on_second(s, ds, mags, k, m);
        let exchanged = s[i].mass.mul_spec(lost);
        assert(exchanged == s[j].mass.mul_spec(gained)) by {
            reveal(ring_arithmetic);
            law_kicks_exchange_momentum(s, ds, mags, k, m);
        }
        mul_distributes_over_sub(s[i].mass, kicked_velocity(s, ds, mags, k, i, m), lost);
        mul_distributes_over_add(s[j].mass, kicked_velocity(s, ds, mags, k, j, m), gained);
        assert(after[i] == before[i].sub_spec(exchanged));
        assert(after[j] == before[j].add_spec(exchanged));
        lemma_sum_of_exchange(before, i, j, exchanged, after);
    }
}

/// In a commutative ring a step of the integrator conserves the total
/// momentum, along every axis: the impulses that a pair gives to its two
/// bodies cancel.
pub proof fn law_step_conserves_momentum<T: Scalar, F: Fn(T) -> T>(
    s: System<T>,
    dt: T,
    sqrt: &F,
    m: int,
)
    requires
        ring_arithmetic::<T>(),
        well_formed(s),
        0 <= m < 3,
    ensures
        well_formed(advanced(s, dt, sqrt)),
        total_momentum(advanced(s, dt, sqrt), m) == total_momentum(s, m),
{
    let ds = displacements(s);
    let mags = magnitudes(ds, dt, sqrt);
    lemma_kicks_conserve_momentum(s, ds, mags, INTERACTIONS as nat, m);
    assert(momenta(advanced(s, dt, sqrt), m) =~= momenta(
        kicked_by(s, ds, mags, INTERACTIONS as nat),
        m,
    ));
}

/// In a commutative ring any number of steps conserves the total momentum.
pub proof fn law_run_conserves_momentum<T: Scalar, F: Fn(T) -> T>(
    s: System<T>,
    dt: T,
    sqrt: &F,
    n: nat,
    m: int,
)
    requires
        ring_arithmetic::<T>(),
        well_formed(s),
        0 <= m < 3,
    ensures
        well_formed(evolved(s, dt, sqrt, n)),
        total_momentum(evolved(s, dt, sqrt, n), m) == total_momentum(s, m),
    decreases n,
{
    if n > 0 {
        law_run_conserves_momentum(s, dt, sqrt, (n - 1) as nat, m);
        law_step_conserves_momentum(evolved(s, dt, sqrt, (n - 1) as nat), dt, sqrt, m);
    }
}

} // verus!

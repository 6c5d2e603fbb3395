//! The state from which a run starts: the Sun and the four giant planets at
//! a reference epoch.
//!
//! The data are decimal numerals, each held exactly as a whole number and a
//! power of ten. The caller's scalar type turns a numeral into a scalar, and
//! the scaling from days to years and from solar masses to the unit of mass
//! is done with the operators of that type.

use crate::body::{Body, BodyView, System, BODIES_COUNT};
use crate::scalar::{
    exact_arithmetic, exact_numerals, scalar_of, total_arithmetic, total_numerals, Decimal, Scalar,
};
use vstd::prelude::*;
#[allow(unused_imports)]
use vstd::std_specs::ops::MulSpec;

verus! {

/// The number of planets.
pub const PLANETS_COUNT: usize = BODIES_COUNT - 1;

/// The ratio of a circle's circumference to its diameter, to sixteen digits.
pub const PI: Decimal = (3_141_592_653_589_793, -15);

/// The length of the year in days.
pub const DAYS_PER_YEAR: Decimal = (36_524, -2);

/// The positions of Jupiter, Saturn, Uranus and Neptune, in astronomical
/// units.
pub const POSITIONS: [[Decimal; 3]; PLANETS_COUNT] = [
    [(4_841_431_442_464_721, -15), (-11_603_200_440_274_284, -16), (-10_362_204_447_112_311, -17)],
    [(834_336_671_824_458, -14), (4_124_798_564_124_305, -15), (-4_035_234_171_143_214, -16)],
    [(12_894_369_562_139_131, -15), (-15_111_151_401_698_631, -15), (-22_330_757_889_265_573, -17)],
    [(15_379_697_114_850_917, -15), (-25_919_314_609_987_964, -15), (17_925_877_295_037_118, -17)],
];

/// The velocities of the four planets, in astronomical units per day.
pub const VELOCITIES: [[Decimal; 3]; PLANETS_COUNT] = [
    [(1_660_076_642_744_037, -18), (7_699_011_184_197_404, -18), (-690_460_016_972_063, -19)],
    [(-2_767_425_107_268_624, -18), (4_998_528_012_349_172, -18), (23_041_729_757_376_393, -21)],
    [(2_964_601_375_647_616, -18), (23_784_717_395_948_095, -19), (-29_658_956_854_023_756, -21)],
    [(26_806_777_249_038_932, -19), (1_628_241_700_382_423, -18), (-9_515_922_545_197_159, -20)],
];

/// The masses of the four planets, in masses of the Sun.
pub const MASSES: [Decimal; PLANETS_COUNT] = [
    (9_547_919_384_243_266, -19),
    (2_858_859_806_661_308, -19),
    (4_366_244_043_351_563, -20),
    (51_513_890_204_661_145, -21),
];

/// The mass of the Sun in the unit of mass: four times pi times pi.
pub open spec fn solar_mass<T: Scalar, D: Fn(i64, i32) -> T>(decimal: &D) -> T {
    scalar_of(decimal, (4, 0)).mul_spec(scalar_of(decimal, PI)).mul_spec(scalar_of(decimal, PI))
}

/// The Sun: at rest at the origin.
pub open spec fn sun<T: Scalar, D: Fn(i64, i32) -> T>(decimal: &D) -> BodyView<T> {
    BodyView {
        position: Seq::new(3, |m: int| scalar_of(decimal, (0, 0))),
        velocity: Seq::new(3, |m: int| scalar_of(decimal, (0, 0))),
        mass: solar_mass(decimal),
    }
}

/// Planet `p`, counted from 0: its position as listed, its velocity scaled
/// from days to years, its mass scaled by the mass of the Sun.
pub open spec fn planet<T: Scalar, D: Fn(i64, i32) -> T>(decimal: &D, p: int) -> BodyView<T> {
    BodyView {
        position: Seq::new(3, |m: int| scalar_of(decimal, POSITIONS[p][m])),
        velocity: Seq::new(
            3,
            |m: int|
                scalar_of(decimal, VELOCITIES[p][m]).mul_spec(scalar_of(decimal, DAYS_PER_YEAR)),
        ),
        mass: scalar_of(decimal, MASSES[p]).mul_spec(solar_mass(decimal)),
    }
}

/// The starting system: the Sun, then the four planets.
pub open spec fn starting_system<T: Scalar, D: Fn(i64, i32) -> T>(decimal: &D) -> System<T> {
    Seq::new(
        BODIES_COUNT as nat,
        |b: int|
            if b == 0 {
                sun(decimal)
            } else {
                planet(decimal, b - 1)
            },
    )
}

/// Builds the starting state. `decimal(digits, exponent)` is the scalar for
/// `digits` times ten to the power `exponent`.
#[verifier::loop_isolation(false)]
pub fn starting_state<T: Scalar, D: Fn(i64, i32) -> T>(
    decimal: &D,
) -> (bodies: [Body<T>; BODIES_COUNT])
    requires
        total_arithmetic::<T>(),
        total_numerals(decimal),
    ensures
        exact_arithmetic::<T>() && exact_numerals(decimal) ==> bodies.deep_view()
            == starting_system(decimal),
{
    let ghost exact = exact_arithmetic::<T>() && exact_numerals(decimal);
    let zero = decimal(0, 0);
    let pi = decimal(PI.0, PI.1);
    let solar_mass = decimal(4, 0) * pi * pi;
    let days_per_year = decimal(DAYS_PER_YEAR.0, DAYS_PER_YEAR.1);
    let star = Body { position: [zero; 3], velocity: [zero; 3], mass: solar_mass };
    // The planets' entries are overwritten below.
    let mut bodies = [star; BODIES_COUNT];
    for p in 0..PLANETS_COUNT
        invariant
            exact ==> bodies[0]@ == sun(decimal),
            forall|q: int|
                exact && 0 <= q < p ==> (#[trigger] bodies[q + 1])@ == planet(decimal, q),
    {
        let position = [
            decimal(POSITIONS[p][0].0, POSITIONS[p][0].1),
            decimal(POSITIONS[p][1].0, POSITIONS[p][1].1),
            decimal(POSITIONS[p][2].0, POSITIONS[p][2].1),
        ];
        let velocity = [
            decimal(VELOCITIES[p][0].0, VELOCITIES[p][0].1) * days_per_year,
            decimal(VELOCITIES[p][1].0, VELOCITIES[p][1].1) * days_per_year,
            decimal(VELOCITIES[p][2].0, VELOCITIES[p][2].1) * days_per_year,
        ];
        let mass = decimal(MASSES[p].0, MASSES[p].1) * solar_mass;
        bodies[p + 1] = Body { position, velocity, mass };
        proof {
            if exact {
                assert(bodies[p + 1]@.position =~= planet(decimal, p as int).position);
                assert(bodies[p + 1]@.velocity =~= planet(decimal, p as int).velocity);
            }
        }
    }
    proof {
        if exact {
            assert forall|b: int| 0 <= b < BODIES_COUNT implies #[trigger] bodies.deep_view()[b]
                == starting_system(decimal)[b] by {
                if b > 0 {
                    assert(bodies[(b - 1) + 1]@ == planet(decimal, b - 1));
                }
            }
            assert(bodies.deep_view() =~= starting_system(decimal));
        }
    }
    bodies
}

} // verus!

//! Gravitational dynamics of a star and four planets.
//!
//! The crate integrates Newtonian gravity for a fixed set of five point
//! masses with a semi-implicit Euler scheme. Every routine is generic over
//! the scalar type of the coordinates, so the arithmetic itself is supplied
//! by the caller's number type, and every contract is stated relative to the
//! operators of that type: which operands are combined, and in which order.
//!
//! A run begins with [`starting_state`], sets the star against the planets
//! once with [`offset_momentum`], then calls [`advance`] once for each step,
//! or [`simulate`] for all of them; [`total_energy`] can be read at any
//! point.

pub mod body;
pub mod conservation;
pub mod energy;
pub mod initial;
pub mod integrator;
pub mod momentum;
pub mod pairs;
pub mod scalar;
pub mod simulation;
pub mod snapshot;

pub use crate::body::{Body, BodyView, System, BODIES_COUNT};
pub use crate::energy::total_energy;
pub use crate::initial::starting_state;
pub use crate::integrator::{advance, TIME_STEP};
pub use crate::momentum::offset_momentum;
pub use crate::pairs::INTERACTIONS;
pub use crate::scalar::{sqr, Decimal, Scalar};
pub use crate::simulation::simulate;
pub use crate::snapshot::{make_timestamps, Timestamp};

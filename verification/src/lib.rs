//! Trajectory integration for a test particle orbiting a fixed point mass
//! under Newtonian gravity.
//!
//! The numerical core is a 4th-order Hermite predictor-corrector scheme with
//! an adaptive internal step size, driven to land exactly on fixed-size
//! external sample intervals. All arithmetic is carried out in a saturating
//! signed fixed-point representation (see [`fx`]), which makes every
//! computation a total, exactly specified function of its inputs.

pub mod fx;
pub mod state;
pub mod stepper;
pub mod driver;

pub use fx::FX_ONE;

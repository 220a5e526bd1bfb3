//! Decision logic of a FABRIK (forward-and-backward-reaching inverse
//! kinematics) solver for planar chains of rigid links.
//!
//! The geometry itself (distances, interpolation, angles) is real-valued and
//! is carried out by the caller; this library decides everything around it:
//! whether a chain may be built, how a target is approached, in which order
//! joints are repositioned, and when the correction loop stops.
pub mod chain;
pub mod solve;

pub use chain::{validate_chain, ChainError, ChainShape};
pub use solve::{plan_move, solve_step, LinkUpdate, MovePlan, SolveStep, MAX_ITERATIONS};

//! A population-based metaheuristic optimization engine built around the
//! Gravitational Search Algorithm (GSA).
//!
//! The engine keeps every numeric quantity as the raw bit pattern of an IEEE
//! 754 double (`u64`), so that the discrete decision structure of the
//! algorithm — memoized objective evaluation, the elitism schedule, influence
//! selection, rank computation, global-best tracking, history recording and
//! parameter validation — is fully verified.  The floating-point arithmetic
//! itself (objective functions, force and mass formulas, random sampling) is
//! an external collaborator reached through the [`kernel::Kernel`] and
//! [`problem::Objective`] traits, which the embedding program implements.

pub mod bits;
pub mod gsa;
pub mod kernel;
pub mod optimizer;
pub mod params;
pub mod particle;
pub mod problem;
pub mod pso;
pub mod runner;
pub mod select;

//! Timed computational workloads: a quadratic-residue count, a nested-loop
//! accumulator with per-step reduction, and a Monte Carlo hit count for
//! estimating pi, with a harness that times a workload.
pub mod harness;
pub mod loop_sum;
pub mod monte_carlo;
pub mod quadratic_residue;

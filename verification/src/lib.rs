//! Autotuning execution layer for dense matrix multiplication on a GPU.
//!
//! The layer describes a multiplication `D = alpha * (A @ B) + beta * C`
//! through plain-data descriptors, composes them into a validated problem,
//! ranks the candidate execution algorithms that the vendor library's
//! heuristic search reports under a workspace budget, and assembles the
//! fully-checked command that a device stream executes.  Device memory,
//! streams and the vendor search itself are outside collaborators: the
//! caller performs them and hands their plain results to this crate.

pub mod engine;
pub mod error;
pub mod layout;
pub mod operation;
pub mod problem;
pub mod tuner;

//! Glomeris: evidence-first, policy-constrained developer storage cleanup.
//! The verified core: evidence model, policy, approval, revalidation,
//! monitoring state, scanning aggregation and report projection.

pub mod detectors;
pub mod emergency;
pub mod evidence;
pub mod executor;
pub mod monitor;
pub mod parse;
pub mod path;
pub mod platform;
pub mod policy;
pub mod reporting;
pub mod scanner;
pub mod text;

//! Evidence domain model: what a detector observed about a resource, never
//! what should be done about it (that is the policy layer's job).

pub mod correlate;
pub mod model;
pub mod probe;
pub mod time;
pub mod token;

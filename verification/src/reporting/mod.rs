//! Report projection.

pub mod bytes;
pub mod dto;
pub mod impact;
pub mod policy_label;
pub mod ranking;

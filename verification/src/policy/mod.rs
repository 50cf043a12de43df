//! Policy layer: the single deterministic module that decides `AUTO_SAFE` /
//! `ASK` / `PROTECTED` for a resource's evidence, and the approval gate an
//! executor must hold before acting.

pub mod approval;
pub mod class;
pub mod config;
pub mod decision;
pub mod engine;
pub mod protected;

//! macOS: the `launchd` user agent and notification quoting.

pub mod launchd;
pub mod notify;

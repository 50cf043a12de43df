//! Platform adapters whose logic is pure: the `launchd` agent definition
//! and the AppleScript quoting used for notifications.

pub mod macos;

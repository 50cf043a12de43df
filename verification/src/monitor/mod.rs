//! Disk-pressure monitoring: the pressure vocabulary, the debounced state
//! machine, the notification text, and the seams through which the
//! polling loop reaches the filesystem, the clock, notifications and
//! persistence.

pub mod clock;
pub mod fs_stat;
pub mod notifier;
pub mod persistence;
pub mod poller;
pub mod pressure;
pub mod state_machine;

//! The execution lock's error vocabulary. Taking the lock itself (an
//! advisory `flock` on a file) is I/O and happens outside the library.

use vstd::prelude::*;

verus! {

#[verifier::external_type_specification]
#[verifier::external_body]
pub struct ExIoError(std::io::Error);

/// Why the execution lock could not be taken.
#[derive(Debug)]
pub enum LockError {
    /// Another invocation already holds the lock: a distinct "busy"
    /// outcome, not a generic failure.
    AlreadyHeld,
    /// The lock file could not be created or opened, or the lock call
    /// failed for a reason other than contention.
    Io(std::io::Error),
}

impl LockError {
    /// Whether this is the contention case.
    pub fn is_busy(&self) -> (b: bool)
        ensures
            b == (self is AlreadyHeld),
    {
        match self {
            LockError::AlreadyHeld => true,
            LockError::Io(_) => false,
        }
    }

    /// The message shown for this error: a fixed sentence for contention,
    /// and for an I/O failure a fixed prefix followed by the error's own
    /// text.
    pub fn message(&self) -> (m: String)
        ensures
            self is AlreadyHeld ==> m@ == "the execution lock is already held by another invocation"@,
            self is Io ==> crate::text::starts_with(
                m@,
                "failed to acquire the execution lock: "@,
            ),
    {
        match self {
            LockError::AlreadyHeld => crate::text::owned(
                "the execution lock is already held by another invocation",
            ),
            LockError::Io(e) => {
                let text = io_error_text(e);
                let m = crate::detectors::joined_message(
                    "failed to acquire the execution lock: ",
                    text.as_str(),
                );
                assert(m@.subrange(0, "failed to acquire the execution lock: "@.len() as int)
                    =~= "failed to acquire the execution lock: "@);
                m
            },
        }
    }
}

impl From<std::io::Error> for LockError {
    fn from(e: std::io::Error) -> (r: Self) {
        LockError::Io(e)
    }
}

impl vstd::std_specs::convert::FromSpecImpl<std::io::Error> for LockError {
    open spec fn obeys_from_spec() -> bool {
        true
    }

    open spec fn from_spec(e: std::io::Error) -> LockError {
        LockError::Io(e)
    }
}

/// `io::Error`'s display text. It comes from the operating system and its
/// locale, so nothing is claimed of it.
#[verifier::external_body]
fn io_error_text(e: &std::io::Error) -> (t: String) {
    e.to_string()
}

} // verus!

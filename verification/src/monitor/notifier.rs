//! The notification seam. Notification text is fixed and templated from
//! the pressure states alone; nothing external is ever interpolated.

use vstd::prelude::*;

use super::pressure::PressureState;
use crate::text::{push_str, string_from_chars};

verus! {

/// Sends a user-facing notification for a confirmed transition. A failed
/// notification must never take down the monitor loop.
pub trait Notifier {
    fn notify(&self, from: PressureState, to: PressureState) -> Result<(), std::io::Error>;
}

pub open spec fn spec_notification_title(to: PressureState) -> Seq<char> {
    "Glomeris: disk pressure "@ + to.spec_as_str()
}

pub open spec fn spec_notification_body(from: PressureState, to: PressureState) -> Seq<char> {
    "Disk pressure changed from "@ + from.spec_as_str() + " to "@ + to.spec_as_str() + "."@
}

/// The fixed title and body for a transition.
pub fn notification_text(from: PressureState, to: PressureState) -> (r: (String, String))
    ensures
        r.0@ == spec_notification_title(to),
        r.1@ == spec_notification_body(from, to),
{
    let mut title: Vec<char> = Vec::new();
    push_str(&mut title, "Glomeris: disk pressure ");
    push_str(&mut title, to.as_str());
    let mut body: Vec<char> = Vec::new();
    push_str(&mut body, "Disk pressure changed from ");
    push_str(&mut body, from.as_str());
    push_str(&mut body, " to ");
    push_str(&mut body, to.as_str());
    push_str(&mut body, ".");
    assert(title@ =~= spec_notification_title(to));
    assert(body@ =~= spec_notification_body(from, to));
    (string_from_chars(title.as_slice()), string_from_chars(body.as_slice()))
}

} // verus!

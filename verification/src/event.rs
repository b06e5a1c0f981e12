//! The value types carried through the capture pipeline: one relative
//! motion event as decoded from a raw-input record, and the same event
//! stamped with the time elapsed since the session started.

use vstd::prelude::*;

verus! {

/// One relative mouse-motion sample as reported by the raw-input
/// subsystem: device units, not pixels, with no clamping or filtering.
#[derive(Clone, Copy, Debug, PartialEq, Eq, Structural)]
pub struct MouseRawEvent {
    pub dx: i32,
    pub dy: i32,
}

/// A motion event stamped with `t`, the microseconds elapsed between the
/// session start and the moment the consumer received the event.
#[derive(Clone, Copy, Debug, PartialEq, Eq, Structural)]
pub struct MouseRawData {
    pub t: i64,
    pub dx: i32,
    pub dy: i32,
}

} // verus!

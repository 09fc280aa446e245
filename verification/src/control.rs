//! Loop control: the cancellation flag a signal sets, the event filter
//! the loop applies, and the clamp on the confirmation delay.

use vstd::prelude::*;

verus! {

/// The one piece of state shared with the signal context: a single
/// boolean, initially set, cleared exactly once by signal delivery and
/// polled at each loop iteration boundary. The front end holds it in an
/// atomic; this type carries the value and its contract.
#[derive(Clone, Copy, Debug, PartialEq, Eq, Structural)]
pub struct CancellationFlag {
    pub running: bool,
}

impl CancellationFlag {
    /// A fresh flag: the loop is to run.
    pub fn new() -> (r: CancellationFlag)
        ensures
            r.running,
    {
        CancellationFlag { running: true }
    }
}

/// The effect of signal delivery on the cancellation flag: the loop is
/// to stop, whatever it was doing. Clearing an already cleared flag is
/// harmless.
pub fn sighandler(flag: &mut CancellationFlag)
    ensures
        !final(flag).running,
{
    flag.running = false;
}

/// Whether a drained event is a raw pointer-motion notification of the
/// input extension the loop subscribed to. `ev_type`, `ev_extension` and
/// `ev_evtype` come from the event's generic-event payload;
/// `generic_event`, `xi_opcode` and `raw_motion` are the display
/// protocol's generic-event class, the extension's major opcode and the
/// raw-motion subtype. Every other event class is ignored, including the
/// extension's own non-motion subtypes.
pub fn is_raw_motion_event(
    ev_type: i32,
    ev_extension: i32,
    ev_evtype: i32,
    generic_event: i32,
    xi_opcode: i32,
    raw_motion: i32,
) -> (r: bool)
    ensures
        r == (ev_type == generic_event && ev_extension == xi_opcode && ev_evtype == raw_motion),
{
    ev_type == generic_event && ev_extension == xi_opcode && ev_evtype == raw_motion
}

/// The confirmation delay that a requested value yields: absent means
/// none, and a request is clamped to at most a second.
pub open spec fn clamped_delay(requested: Option<u64>) -> u64 {
    match requested {
        Option::Some(d) => if d <= 1000 {
            d
        } else {
            1000
        },
        Option::None => 0,
    }
}

/// Clamps the requested confirmation delay, in milliseconds, to the
/// accepted range `[0, 1000]`; no request means no delay.
pub fn effective_delay(requested: Option<u64>) -> (r: u64)
    ensures
        r == clamped_delay(requested),
{
    match requested {
        Option::Some(d) => if d <= 1000 {
            d
        } else {
            1000
        },
        Option::None => 0,
    }
}

} // verus!

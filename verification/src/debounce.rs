//! Debounce and delayed-confirmation state machine.
//!
//! One cycle looks at the fresh sample against the last acted-upon
//! sample: it either suppresses the cycle outright, records a move into
//! no zone, or reports an edge hit that still needs confirmation. A hit
//! is dispatched only if a second sample, taken after the configured
//! delay, classifies into the very same zone.

use vstd::prelude::*;

use crate::classify::Edge;
use crate::classify::edge_of;
use crate::classify::in_edge;

verus! {

/// The last pointer sample that a cycle acted upon. Initialized to the
/// out-of-range sentinel `(1, 1)` so the very first sample is never taken
/// for "unchanged".
#[derive(Clone, Copy, Debug, PartialEq, Eq, Structural)]
pub struct Tracker {
    pub last_x: i32,
    pub last_y: i32,
}

/// What one observation cycle decided.
#[derive(Clone, Copy, Debug, PartialEq, Eq, Structural)]
pub enum Cycle {
    /// The sample repeats the last acted-upon one, or slides along the
    /// same line inside the offset band: nothing is classified, nothing
    /// dispatched, and the tracker keeps its old coordinates.
    Suppressed,
    /// The sample classified into no zone; the tracker advanced to it.
    Moved,
    /// The sample hit the named zone. The caller must wait the configured
    /// delay, take a second sample and call [`confirm`] with it; the
    /// tracker advances only then, to the post-delay sample.
    Pending(Edge),
}

/// The suppression rule: the fresh sample equals the last acted-upon one,
/// or it slides along the same vertical line strictly inside the
/// non-corner band, or along the same horizontal line likewise.
pub open spec fn suppressed(
    x: i32,
    y: i32,
    oldx: i32,
    oldy: i32,
    xmax: i32,
    ymax: i32,
    offset: i32,
) -> bool {
    ||| (x == oldx && y == oldy)
    ||| (x == oldx && offset < y && y < ymax - offset)
    ||| (y == oldy && offset < x && x < xmax - offset)
}

/// The whole observation step as one function of the prior tracker and
/// the fresh sample: the tracker after the step, and the cycle's outcome.
/// On a suppressed cycle the tracker deliberately keeps the stale
/// coordinates — it always compares against the last sample that was
/// genuinely processed, so a stationary pointer never re-triggers.
pub open spec fn observe_step(t: Tracker, x: i32, y: i32, xmax: i32, ymax: i32, offset: i32) -> (
    Tracker,
    Cycle,
) {
    if suppressed(x, y, t.last_x, t.last_y, xmax, ymax, offset) {
        (t, Cycle::Suppressed)
    } else {
        let e = edge_of(x, y, xmax, ymax, offset);
        if e == Edge::NONE {
            (Tracker { last_x: x, last_y: y }, Cycle::Moved)
        } else {
            (t, Cycle::Pending(e))
        }
    }
}

impl Tracker {
    /// A fresh tracker holding the sentinel coordinates.
    pub fn new() -> (r: Tracker)
        ensures
            r == (Tracker { last_x: 1, last_y: 1 }),
    {
        Tracker { last_x: 1, last_y: 1 }
    }
}

/// Runs one observation cycle on a fresh sample: exactly
/// [`observe_step`] applied to the prior tracker state.
pub fn observe(t: &mut Tracker, x: i32, y: i32, xmax: i32, ymax: i32, offset: i32) -> (r: Cycle)
    requires
        0 <= xmax,
        0 <= ymax,
        0 <= offset,
    ensures
        (*final(t), r) == observe_step(*old(t), x, y, xmax, ymax, offset),
{
    if (x == t.last_x && y == t.last_y) || (x == t.last_x && offset < y && y < ymax - offset) || (y
        == t.last_y && offset < x && x < xmax - offset) {
        return Cycle::Suppressed;
    }
    let e = in_edge(x, y, xmax, ymax, offset);
    if e == Edge::NONE {
        t.last_x = x;
        t.last_y = y;
        return Cycle::Moved;
    }
    Cycle::Pending(e)
}

/// Re-checks a pending edge hit against the post-delay sample
/// `(x2, y2)`. Returns whether to dispatch: exactly when the second
/// classification yields the same zone again. Either way the tracker
/// advances to the post-delay sample, not the pre-delay one.
pub fn confirm(t: &mut Tracker, edge: Edge, x2: i32, y2: i32, xmax: i32, ymax: i32, offset: i32) -> (r:
    bool)
    requires
        0 <= xmax,
        0 <= ymax,
        0 <= offset,
    ensures
        *final(t) == (Tracker { last_x: x2, last_y: y2 }),
        r == (edge_of(x2, y2, xmax, ymax, offset) == edge),
{
    let e2 = in_edge(x2, y2, xmax, ymax, offset);
    t.last_x = x2;
    t.last_y = y2;
    e2 == edge
}

/// Law: a sample identical to the last acted-upon one is suppressed —
/// the cycle neither advances the tracker nor reaches the
/// pending-confirmation state, so a stationary pointer cannot dispatch
/// twice.
pub proof fn lemma_debounce_stationary(t: Tracker, xmax: i32, ymax: i32, offset: i32)
    ensures
        observe_step(t, t.last_x, t.last_y, xmax, ymax, offset) == (t, Cycle::Suppressed),
{
}

/// Law: a pending hit whose post-delay sample classifies into a
/// different zone (including no zone at all) is discarded, never
/// dispatched.
pub proof fn lemma_confirm_mismatch(
    edge: Edge,
    x2: i32,
    y2: i32,
    xmax: i32,
    ymax: i32,
    offset: i32,
    dispatched: bool,
)
    requires
        dispatched == (edge_of(x2, y2, xmax, ymax, offset) == edge),
        edge_of(x2, y2, xmax, ymax, offset) != edge,
    ensures
        !dispatched,
{
}

} // verus!

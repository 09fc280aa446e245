//! Geometry resolution: which monitor holds the pointer, and the active
//! bounds the classifier should use.

use vstd::prelude::*;

verus! {

/// An axis-aligned monitor rectangle in root-window pixel coordinates,
/// an immutable snapshot of one display output.
#[derive(Clone, Copy, Debug, PartialEq, Eq, Structural)]
pub struct MonitorRect {
    pub x: i32,
    pub y: i32,
    pub width: i32,
    pub height: i32,
}

impl MonitorRect {
    /// A rectangle as the display server reports it: nonnegative extent,
    /// and far corner still representable in pixel coordinates.
    pub open spec fn wf(self) -> bool {
        0 <= self.width && 0 <= self.height && self.x + self.width <= i32::MAX && self.y
            + self.height <= i32::MAX
    }
}

/// Failure of the geometry resolver, fatal for the cycle: acting on a
/// guessed monitor could run the wrong edge's command.
#[derive(Clone, Copy, Debug, PartialEq, Eq, Structural)]
pub enum GeometryError {
    PointerOutsideAnyMonitor,
}

/// Point-in-rectangle containment over a `(x, y, width, height)` tuple:
/// the point lies in the half-open box `[rx, rx+rw) x [ry, ry+rh)`.
pub open spec fn in_rect(x: i32, y: i32, rect: (i32, i32, i32, i32)) -> bool {
    rect.0 <= x && x < rect.0 + rect.2 && rect.1 <= y && y < rect.1 + rect.3
}

/// Containment of a point in a monitor rectangle.
pub open spec fn rect_contains(m: MonitorRect, x: i32, y: i32) -> bool {
    in_rect(x, y, (m.x, m.y, m.width, m.height))
}

/// `i` is the index of the first monitor in enumeration order that
/// contains `(x, y)`. Overlapping (mirrored) rectangles are resolved by
/// this first-match rule, an accepted ambiguity of the display server.
pub open spec fn is_first_hit(mons: Seq<MonitorRect>, x: i32, y: i32, i: int) -> bool {
    &&& 0 <= i < mons.len()
    &&& rect_contains(mons[i], x, y)
    &&& forall|j: int| 0 <= j < i ==> !rect_contains(#[trigger] mons[j], x, y)
}

/// No monitor in the set contains `(x, y)`.
pub open spec fn no_hit(mons: Seq<MonitorRect>, x: i32, y: i32) -> bool {
    forall|j: int| 0 <= j < mons.len() ==> !rect_contains(#[trigger] mons[j], x, y)
}

/// Tests whether `(x, y)` lies in `rect`, given as `(x, y, width, height)`.
pub fn point_in_rect(x: i32, y: i32, rect: (i32, i32, i32, i32)) -> (r: bool)
    requires
        0 <= rect.2,
        0 <= rect.3,
        rect.0 + rect.2 <= i32::MAX,
        rect.1 + rect.3 <= i32::MAX,
    ensures
        r == in_rect(x, y, rect),
{
    let (rx, ry, rw, rh) = rect;
    if (rx <= x && x < rx + rw) && (ry <= y && y < ry + rh) {
        return true;
    }
    return false;
}

/// Index of the first monitor containing `(x, y)`, or `-1` if none does.
pub fn pointer_in_monitor(x: i32, y: i32, monitors: &Vec<MonitorRect>) -> (r: i32)
    requires
        monitors@.len() <= i32::MAX,
        forall|i: int| 0 <= i < monitors@.len() ==> (#[trigger] monitors@[i]).wf(),
    ensures
        r == -1 <==> no_hit(monitors@, x, y),
        r != -1 ==> is_first_hit(monitors@, x, y, r as int),
{
    let n: usize = monitors.len();
    let mut i: usize = 0;
    while i < n
        invariant
            i <= n,
            n == monitors@.len() <= i32::MAX,
            forall|i: int| 0 <= i < monitors@.len() ==> (#[trigger] monitors@[i]).wf(),
            forall|j: int| 0 <= j < i ==> !rect_contains(#[trigger] monitors@[j], x, y),
        decreases n - i,
    {
        let m = monitors[i];
        if point_in_rect(x, y, (m.x, m.y, m.width, m.height)) {
            return i as i32;
        }
        i = i + 1;
    }
    return -1;
}

/// The active bound along one axis: the monitor's far edge, but never past
/// the root display's own last pixel (`root_max`) — a monitor rectangle
/// that extends past the reported root size only shrinks the bound, never
/// grows it.
pub open spec fn axis_max(off: i32, extent: i32, root_max: i32) -> int {
    if off + extent <= root_max {
        off + extent - 1
    } else {
        root_max as int
    }
}

/// Resolves the active monitor's effective bounds for sample `(x, y)`.
///
/// With exactly one monitor configured, the root bounds are returned
/// directly, with no containment search. Otherwise the first monitor in
/// enumeration order that contains the sample decides, and its bounds are
/// clamped to the root bounds; a sample outside every monitor is a fatal
/// error for the cycle, never silently mapped to a fallback monitor.
pub fn get_xymax(x: i32, y: i32, root_xmax: i32, root_ymax: i32, monitors: &Vec<MonitorRect>) -> (r:
    Result<(i32, i32), GeometryError>)
    requires
        0 <= root_xmax,
        0 <= root_ymax,
        monitors@.len() <= i32::MAX,
        forall|i: int| 0 <= i < monitors@.len() ==> (#[trigger] monitors@[i]).wf(),
    ensures
        monitors@.len() == 1 ==> r == Ok::<(i32, i32), GeometryError>((root_xmax, root_ymax)),
        monitors@.len() != 1 ==> ((r is Err) <==> no_hit(monitors@, x, y)),
        r is Err ==> r == Err::<(i32, i32), GeometryError>(GeometryError::PointerOutsideAnyMonitor),
        monitors@.len() != 1 ==> (r matches Ok(b) ==> forall|i: int|
            is_first_hit(monitors@, x, y, i) ==> b.0 == axis_max(
                monitors@[i].x,
                monitors@[i].width,
                root_xmax,
            ) && b.1 == axis_max(monitors@[i].y, monitors@[i].height, root_ymax)),
{
    let mut xmax: i32 = root_xmax;
    let mut ymax: i32 = root_ymax;

    if monitors.len() == 1 {
        return Ok((xmax, ymax));
    }

    let i = pointer_in_monitor(x, y, monitors);
    if i < 0 {
        return Err(GeometryError::PointerOutsideAnyMonitor);
    }

    let m = monitors[i as usize];

    if m.x + m.width <= xmax {
        xmax = m.x + m.width - 1;
    }
    if m.y + m.height <= ymax {
        ymax = m.y + m.height - 1;
    }

    Ok((xmax, ymax))
}

} // verus!

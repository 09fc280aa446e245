//! Edge classification: maps a pointer sample to one of nine zones.

use vstd::prelude::*;

verus! {

/// The nine symbolic zones a pointer sample can occupy relative to the
/// active monitor's bounds: four corners, four edge midsections, or none.
#[derive(Clone, Copy, Debug, PartialEq, Eq, Structural)]
pub enum Edge {
    TOPLEFT,
    TOPRIGHT,
    BOTTOMRIGHT,
    BOTTOMLEFT,
    LEFT,
    TOP,
    RIGHT,
    BOTTOM,
    NONE,
}

/// The zone of sample `(x, y)` on a monitor whose last valid pixel is
/// `(xmax, ymax)`, with a dead zone of `offset` pixels next to each corner.
/// The predicates are evaluated in order; corners take priority over edge
/// midsections, so pixel `(0, 0)` is always the top-left corner and never
/// part of the left or top band.
pub open spec fn edge_of(x: i32, y: i32, xmax: i32, ymax: i32, offset: i32) -> Edge {
    if x == 0 && y == 0 {
        Edge::TOPLEFT
    } else if x == xmax && y == 0 {
        Edge::TOPRIGHT
    } else if x == xmax && y == ymax {
        Edge::BOTTOMRIGHT
    } else if x == 0 && y == ymax {
        Edge::BOTTOMLEFT
    } else if x == 0 && offset < y && y < ymax - offset {
        Edge::LEFT
    } else if y == 0 && offset < x && x < xmax - offset {
        Edge::TOP
    } else if x == xmax && offset < y && y < ymax - offset {
        Edge::RIGHT
    } else if y == ymax && offset < x && x < xmax - offset {
        Edge::BOTTOM
    } else {
        Edge::NONE
    }
}

/// Classifies a pointer sample. A pure function of its arguments: the
/// result is exactly `edge_of(x, y, xmax, ymax, offset)`.
pub fn in_edge(x: i32, y: i32, xmax: i32, ymax: i32, offset: i32) -> (r: Edge)
    requires
        0 <= xmax,
        0 <= ymax,
        0 <= offset,
    ensures
        r == edge_of(x, y, xmax, ymax, offset),
{
    if x == 0 && y == 0 {
        Edge::TOPLEFT
    } else if x == xmax && y == 0 {
        Edge::TOPRIGHT
    } else if x == xmax && y == ymax {
        Edge::BOTTOMRIGHT
    } else if x == 0 && y == ymax {
        Edge::BOTTOMLEFT
    } else if x == 0 && offset < y && y < ymax - offset {
        Edge::LEFT
    } else if y == 0 && offset < x && x < xmax - offset {
        Edge::TOP
    } else if x == xmax && offset < y && y < ymax - offset {
        Edge::RIGHT
    } else if y == ymax && offset < x && x < xmax - offset {
        Edge::BOTTOM
    } else {
        Edge::NONE
    }
}

/// The corner dead-zone width used for a monitor of height `ymax + 1`:
/// a quarter of `ymax`, rounded down. A policy constant of the daemon,
/// not a protocol requirement.
pub fn hot_offset(ymax: i32) -> (r: i32)
    requires
        0 <= ymax,
    ensures
        r == ymax / 4,
        0 <= r <= ymax,
{
    ymax / 4
}

/// Law: a sample with both coordinates on boundary extremes classifies as
/// the matching corner, whatever the offset; and for a non-degenerate
/// monitor (`xmax > 0` and `ymax > 0`) the four corner results are
/// mutually exclusive, each extreme pair naming a distinct corner.
pub proof fn lemma_corner_classification(x: i32, y: i32, xmax: i32, ymax: i32, offset: i32)
    requires
        x == 0 || x == xmax,
        y == 0 || y == ymax,
    ensures
        x == 0 && y == 0 ==> edge_of(x, y, xmax, ymax, offset) == Edge::TOPLEFT,
        0 < xmax && 0 < ymax ==> edge_of(x, y, xmax, ymax, offset) == (
            if x == 0 && y == 0 {
                Edge::TOPLEFT
            } else if x == xmax && y == 0 {
                Edge::TOPRIGHT
            } else if x == xmax && y == ymax {
                Edge::BOTTOMRIGHT
            } else {
                Edge::BOTTOMLEFT
            }
        ),
{
}

/// Law: a sample on a screen side, strictly inside the band that the
/// corner dead zones leave open, classifies as that side's midsection;
/// and the band's closed endpoint `offset` itself classifies as no zone
/// at all. The right and bottom clauses need a non-degenerate axis: on a
/// monitor with `xmax == 0` the left and right sides coincide and the
/// left side wins.
pub proof fn lemma_edge_bands(x: i32, y: i32, xmax: i32, ymax: i32, offset: i32)
    requires
        0 <= offset,
    ensures
        x == 0 && offset < y < ymax - offset ==> edge_of(x, y, xmax, ymax, offset) == Edge::LEFT,
        y == 0 && offset < x < xmax - offset ==> edge_of(x, y, xmax, ymax, offset) == Edge::TOP,
        x == xmax && 0 < xmax && offset < y < ymax - offset ==> edge_of(x, y, xmax, ymax, offset)
            == Edge::RIGHT,
        y == ymax && 0 < ymax && offset < x < xmax - offset ==> edge_of(x, y, xmax, ymax, offset)
            == Edge::BOTTOM,
        x == 0 && y == offset && 1 <= offset < ymax ==> edge_of(x, y, xmax, ymax, offset)
            == Edge::NONE,
        y == 0 && x == offset && 1 <= offset < xmax ==> edge_of(x, y, xmax, ymax, offset)
            == Edge::NONE,
{
}

/// Law: classification is a pure function of its five arguments; two
/// results obtained from the same sample, bounds and offset are identical.
pub proof fn lemma_classify_idempotent(
    x: i32,
    y: i32,
    xmax: i32,
    ymax: i32,
    offset: i32,
    r1: Edge,
    r2: Edge,
)
    requires
        r1 == edge_of(x, y, xmax, ymax, offset),
        r2 == edge_of(x, y, xmax, ymax, offset),
    ensures
        r1 == r2,
{
}

} // verus!

use edges::classify::Edge;
use edges::debounce::{confirm, observe, Cycle, Tracker};

const XMAX: i32 = 1919;
const YMAX: i32 = 1079;
const OFFSET: i32 = 269;

#[test]
fn fresh_tracker_holds_the_sentinel() {
    let t = Tracker::new();
    assert_eq!(t, Tracker { last_x: 1, last_y: 1 });
}

#[test]
fn stationary_pointer_is_suppressed() {
    let mut t = Tracker { last_x: 0, last_y: 0 };
    let cycle = observe(&mut t, 0, 0, XMAX, YMAX, OFFSET);
    assert_eq!(cycle, Cycle::Suppressed);
    // The tracker keeps the coordinates it last acted upon.
    assert_eq!(t, Tracker { last_x: 0, last_y: 0 });
}

#[test]
fn slide_along_left_band_is_suppressed() {
    let mut t = Tracker { last_x: 0, last_y: 400 };
    let cycle = observe(&mut t, 0, 500, XMAX, YMAX, OFFSET);
    assert_eq!(cycle, Cycle::Suppressed);
    assert_eq!(t, Tracker { last_x: 0, last_y: 400 });
}

#[test]
fn slide_along_top_band_is_suppressed() {
    let mut t = Tracker { last_x: 400, last_y: 0 };
    let cycle = observe(&mut t, 500, 0, XMAX, YMAX, OFFSET);
    assert_eq!(cycle, Cycle::Suppressed);
    assert_eq!(t, Tracker { last_x: 400, last_y: 0 });
}

#[test]
fn move_into_no_zone_advances_the_tracker() {
    let mut t = Tracker::new();
    let cycle = observe(&mut t, 5, 5, XMAX, YMAX, OFFSET);
    assert_eq!(cycle, Cycle::Moved);
    assert_eq!(t, Tracker { last_x: 5, last_y: 5 });
}

#[test]
fn edge_hit_goes_pending_without_advancing() {
    let mut t = Tracker { last_x: 5, last_y: 5 };
    let cycle = observe(&mut t, 0, 0, XMAX, YMAX, OFFSET);
    assert_eq!(cycle, Cycle::Pending(Edge::TOPLEFT));
    // Only confirmation advances the tracker, to the post-delay sample.
    assert_eq!(t, Tracker { last_x: 5, last_y: 5 });
}

#[test]
fn second_identical_sample_never_goes_pending() {
    let mut t = Tracker { last_x: 5, last_y: 5 };
    assert_eq!(observe(&mut t, 0, 0, XMAX, YMAX, OFFSET), Cycle::Pending(Edge::TOPLEFT));
    assert!(confirm(&mut t, Edge::TOPLEFT, 0, 0, XMAX, YMAX, OFFSET));
    // The pointer sits still: the repeat sample must not re-arm.
    assert_eq!(observe(&mut t, 0, 0, XMAX, YMAX, OFFSET), Cycle::Suppressed);
}

#[test]
fn confirm_same_zone_dispatches() {
    let mut t = Tracker { last_x: 5, last_y: 5 };
    assert!(confirm(&mut t, Edge::TOPLEFT, 0, 0, XMAX, YMAX, OFFSET));
    assert_eq!(t, Tracker { last_x: 0, last_y: 0 });
}

#[test]
fn confirm_different_zone_discards() {
    let mut t = Tracker { last_x: 5, last_y: 5 };
    assert!(!confirm(&mut t, Edge::TOPLEFT, 500, 500, XMAX, YMAX, OFFSET));
    // The tracker still advances to the post-delay sample.
    assert_eq!(t, Tracker { last_x: 500, last_y: 500 });
}

#[test]
fn confirm_no_zone_discards() {
    let mut t = Tracker { last_x: 5, last_y: 5 };
    assert!(!confirm(&mut t, Edge::LEFT, 1, 500, XMAX, YMAX, OFFSET));
    assert_eq!(t, Tracker { last_x: 1, last_y: 500 });
}

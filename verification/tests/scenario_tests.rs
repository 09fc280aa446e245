//! End-to-end scenarios: the sample sequences an event loop would feed
//! the library, with a counter standing in for the command launcher.

use edges::classify::{hot_offset, Edge};
use edges::control::effective_delay;
use edges::debounce::{confirm, observe, Cycle, Tracker};
use edges::dispatch::{dispatch_plan, Commands};
use edges::geometry::{get_xymax, MonitorRect};

fn lock_screen_commands() -> Commands {
    Commands {
        topleft: Some("lock-screen".to_string()),
        topright: None,
        bottomright: None,
        bottomleft: None,
        left: None,
        top: None,
        right: None,
        bottom: None,
    }
}

/// One observation cycle as the event loop runs it: resolve bounds,
/// observe, and on a pending hit confirm with the post-delay sample and
/// launch. Returns the argument vectors "launched".
fn cycle(
    t: &mut Tracker,
    sample: (i32, i32),
    post_delay_sample: (i32, i32),
    cmds: &Commands,
    monitors: &Vec<MonitorRect>,
    root: (i32, i32),
) -> Vec<Vec<String>> {
    let (x, y) = sample;
    let (xmax, ymax) = get_xymax(x, y, root.0, root.1, monitors).unwrap();
    let offset = hot_offset(ymax);
    let mut launched = Vec::new();
    if let Cycle::Pending(edge) = observe(t, x, y, xmax, ymax, offset) {
        // The loop sleeps for the configured delay here, then re-samples.
        let (x2, y2) = post_delay_sample;
        if confirm(t, edge, x2, y2, xmax, ymax, offset) {
            if let Some(args) = dispatch_plan(cmds, edge) {
                launched.push(args);
            }
        }
    }
    launched
}

#[test]
fn corner_hit_dispatches_exactly_once() {
    let monitors = vec![MonitorRect { x: 0, y: 0, width: 1920, height: 1080 }];
    let root = (1919, 1079);
    let cmds = lock_screen_commands();
    let _delay = effective_delay(Some(0));
    let mut t = Tracker::new();
    let mut launched: Vec<Vec<String>> = Vec::new();

    // With no delay the confirmation re-sample sees the same spot.
    for &(x, y) in [(5, 5), (0, 0), (0, 0)].iter() {
        launched.extend(cycle(&mut t, (x, y), (x, y), &cmds, &monitors, root));
    }

    assert_eq!(launched, vec![vec!["lock-screen".to_string()]]);
}

#[test]
fn pointer_leaving_during_delay_discards_the_hit() {
    let monitors = vec![MonitorRect { x: 0, y: 0, width: 1920, height: 1080 }];
    let root = (1919, 1079);
    let cmds = lock_screen_commands();
    let _delay = effective_delay(Some(50));
    let mut t = Tracker::new();

    // The pointer lands on the corner, but moves away during the delay
    // window: the post-delay sample classifies elsewhere.
    let launched = cycle(&mut t, (0, 0), (500, 500), &cmds, &monitors, root);

    assert!(launched.is_empty());
    // The tracker advanced to the post-delay sample, not the corner.
    assert_eq!(t, Tracker { last_x: 500, last_y: 500 });
}

//! Pointer-edge detection engine for a hot-corner daemon.
//!
//! The library holds the verified core: resolving the active monitor's
//! bounds from a pointer sample, classifying a sample into one of nine
//! edge/corner zones, the debounce and delayed-confirmation state machine
//! that suppresses spurious triggers, and the command lookup and
//! tokenization that precede a launch. The display-server connection,
//! signal registration and process spawning live outside, in the
//! unverified front end, which feeds this library plain coordinates.

pub mod classify;
pub mod control;
pub mod debounce;
pub mod dispatch;
pub mod geometry;

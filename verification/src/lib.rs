//! A small bank of elevator cars serving a fixed run of floors.
//!
//! Passengers wait in per-floor queues, split by the direction they want to
//! travel, and are also recorded in one backlog of pending requests. Each car
//! repeats one cycle: open the doors, let out whoever has arrived, take in
//! whoever waits for the car's direction while there is room, close the
//! doors, then either advance one floor or, when empty, answer a pending
//! request. Every function here is pure state-to-state logic: locking,
//! pacing and narration belong to the caller.

use vstd::prelude::*;

pub mod elevator;
pub mod passenger;
pub mod queues;
pub mod spawn;

verus! {

/// The number of floors of the default building; they are numbered from 0.
pub const LEVELS: usize = 3;

} // verus!

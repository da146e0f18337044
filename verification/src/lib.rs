//! A small desktop utility core: watch a stream of pressed-key snapshots and,
//! after a configurable delay, request that a notification sound be played.
//! A separate set of cancel keys can abort a pending countdown.
//!
//! The crate holds the verified logic only: the configuration loader and the
//! edge-triggered debounced timer that decides when playback starts, is
//! suppressed, or is cancelled. Reading the keyboard, the wall clock and the
//! audio device is left to the surrounding program.

use vstd::prelude::*;

pub mod config;
pub mod keys;
pub mod laws;
pub mod machine;
pub mod millis;

verus! {

/// A countdown is either not running, or has accumulated `elapsed`
/// milliseconds since it was last (re)started.
#[derive(Clone, Copy, Debug, PartialEq, Eq, Structural)]
pub enum TimerState {
    Disabled,
    Counting { elapsed: u64 },
}

impl TimerState {
    /// The countdown starts out not running.
    pub fn initial() -> (r: TimerState)
        ensures
            r is Disabled,
    {
        TimerState::Disabled
    }
}

} // verus!

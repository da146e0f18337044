//! The trigger state machine: an edge-triggered debounced countdown driven by
//! polled keyboard snapshots.
//!
//! One call to [`step`] is one iteration of the polling loop. It first
//! advances the countdown by the wall-clock time the caller measured since the
//! previous iteration, firing playback when the accumulated time reaches the
//! configured delay; then, if the pressed-key snapshot differs from the
//! previous one, it (re)arms the countdown on a trigger key or clears it on a
//! cancel key. A trigger key always wins over a cancel key in the same
//! iteration, and a fresh arm is honoured only once the countdown's own
//! elapsed time has passed the ignore-duration (a disabled countdown is always
//! eligible).

use crate::config::Config;
use crate::TimerState;
use vstd::prelude::*;

verus! {

/// What one loop iteration decided: the countdown afterwards, and which
/// notifications the caller should emit (`played` also asks it to start
/// playback).
#[derive(Clone, Copy, Debug, PartialEq, Eq, Structural)]
pub struct StepOutcome {
    pub state: TimerState,
    pub played: bool,
    pub started: bool,
    pub cleared: bool,
}

/// Some key of `snapshot` lies in `keys`.
pub open spec fn has_key_in(snapshot: Seq<u32>, keys: Seq<u32>) -> bool {
    exists|i: int| 0 <= i < snapshot.len() && keys.contains(snapshot[i])
}

/// The countdown after `delta` more milliseconds have passed, before any
/// key handling: a running countdown accumulates time and shuts off once it
/// reaches `delay`.
pub open spec fn spec_tick(state: TimerState, delta: u64, delay: u64) -> TimerState {
    match state {
        TimerState::Disabled => TimerState::Disabled,
        TimerState::Counting { elapsed } => if elapsed + delta >= delay {
            TimerState::Disabled
        } else {
            TimerState::Counting { elapsed: (elapsed + delta) as u64 }
        },
    }
}

/// Whether advancing `state` by `delta` reaches `delay`, firing playback.
pub open spec fn spec_fires(state: TimerState, delta: u64, delay: u64) -> bool {
    state matches TimerState::Counting { elapsed } && elapsed + delta >= delay
}

/// Whether a trigger press is honoured: always while disabled, and otherwise
/// only once the countdown's own elapsed time exceeds the ignore-duration.
pub open spec fn rearm_allowed(state: TimerState, ignore_duration: u64) -> bool {
    match state {
        TimerState::Disabled => true,
        TimerState::Counting { elapsed } => elapsed > ignore_duration,
    }
}

/// One whole loop iteration, as a mathematical function: advance the
/// countdown by `delta`, then handle a changed snapshot. A trigger key
/// (re)arms when allowed; otherwise a cancel key clears a running countdown.
pub open spec fn spec_step(
    delay: u64,
    ignore_duration: u64,
    triggers: Seq<u32>,
    cancels: Seq<u32>,
    state: TimerState,
    delta: u64,
    snapshot: Seq<u32>,
    previous: Seq<u32>,
) -> StepOutcome {
    let ticked = spec_tick(state, delta, delay);
    let played = spec_fires(state, delta, delay);
    if snapshot != previous {
        if rearm_allowed(ticked, ignore_duration) && has_key_in(snapshot, triggers) {
            StepOutcome {
                state: TimerState::Counting { elapsed: 0 },
                played,
                started: true,
                cleared: false,
            }
        } else if ticked is Counting && has_key_in(snapshot, cancels) {
            StepOutcome { state: TimerState::Disabled, played, started: false, cleared: true }
        } else {
            StepOutcome { state: ticked, played, started: false, cleared: false }
        }
    } else {
        StepOutcome { state: ticked, played, started: false, cleared: false }
    }
}

/// Whether two key snapshots are the same, in the same order.
fn snapshot_eq(a: &Vec<u32>, b: &Vec<u32>) -> (r: bool)
    ensures
        r == (a@ == b@),
{
    if a.len() != b.len() {
        return false;
    }
    let mut i: usize = 0;
    while i < a.len()
        invariant
            i <= a.len(),
            a@.len() == b@.len(),
            forall|j: int| 0 <= j < i ==> a@[j] == b@[j],
        decreases a.len() - i,
    {
        if a[i] != b[i] {
            return false;
        }
        i = i + 1;
    }
    proof {
        assert(a@ =~= b@);
    }
    true
}

/// Whether some currently pressed key lies in `keys`.
fn contains_any(snapshot: &Vec<u32>, keys: &Vec<u32>) -> (r: bool)
    ensures
        r == has_key_in(snapshot@, keys@),
{
    let mut i: usize = 0;
    while i < snapshot.len()
        invariant
            i <= snapshot.len(),
            forall|j: int| 0 <= j < i ==> !keys@.contains(snapshot@[j]),
        decreases snapshot.len() - i,
    {
        let mut k: usize = 0;
        while k < keys.len()
            invariant
                i < snapshot.len(),
                k <= keys.len(),
                forall|j: int| 0 <= j < k ==> keys@[j] != snapshot@[i as int],
            decreases keys.len() - k,
        {
            if keys[k] == snapshot[i] {
                return true;
            }
            k = k + 1;
        }
        i = i + 1;
    }
    false
}

/// One iteration of the polling loop.
///
/// `delta_ms` is the wall-clock time since the previous iteration; `snapshot`
/// and `previous` are the pressed keys now and at the previous iteration. The
/// outcome lists the countdown afterwards and the notifications owed, exactly
/// as [`spec_step`] describes.
pub fn step(
    config: &Config,
    state: TimerState,
    delta_ms: u64,
    snapshot: &Vec<u32>,
    previous: &Vec<u32>,
) -> (r: StepOutcome)
    ensures
        r == spec_step(
            config.delay,
            config.ignore_duration,
            config.trigger_keys@,
            config.cancel_keys@,
            state,
            delta_ms,
            snapshot@,
            previous@,
        ),
{
    let (ticked, played) = match state {
        TimerState::Disabled => (TimerState::Disabled, false),
        TimerState::Counting { elapsed } => match elapsed.checked_add(delta_ms) {
            None => (TimerState::Disabled, true),
            Some(total) => if total >= config.delay {
                (TimerState::Disabled, true)
            } else {
                (TimerState::Counting { elapsed: total }, false)
            },
        },
    };
    if !snapshot_eq(snapshot, previous) {
        let eligible = match ticked {
            TimerState::Disabled => true,
            TimerState::Counting { elapsed } => elapsed > config.ignore_duration,
        };
        if eligible && contains_any(snapshot, &config.trigger_keys) {
            StepOutcome {
                state: TimerState::Counting { elapsed: 0 },
                played,
                started: true,
                cleared: false,
            }
        } else if matches!(ticked, TimerState::Counting { .. }) && contains_any(
            snapshot,
            &config.cancel_keys,
        ) {
            StepOutcome { state: TimerState::Disabled, played, started: false, cleared: true }
        } else {
            StepOutcome { state: ticked, played, started: false, cleared: false }
        }
    } else {
        StepOutcome { state: ticked, played, started: false, cleared: false }
    }
}

} // verus!

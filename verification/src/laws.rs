//! Proved properties of the trigger state machine.
//!
//! Each proof function here states one guarantee of [`crate::machine::spec_step`],
//! which the executable [`crate::machine::step`] returns exactly.

use crate::machine::{has_key_in, rearm_allowed, spec_step, spec_tick};
use crate::TimerState;
use vstd::prelude::*;

verus! {

/// The sum of a sequence of millisecond deltas.
pub open spec fn sum_of(deltas: Seq<u64>) -> int
    decreases deltas.len(),
{
    if deltas.len() == 0 {
        0
    } else {
        deltas[0] + sum_of(deltas.drop_first())
    }
}

/// The countdown after a run of iterations in which the pressed keys never
/// change: each iteration sees `snapshot` both as the current and as the
/// previous keys.
pub open spec fn quiet_state(
    delay: u64,
    ignore_duration: u64,
    triggers: Seq<u32>,
    cancels: Seq<u32>,
    state: TimerState,
    deltas: Seq<u64>,
    snapshot: Seq<u32>,
) -> TimerState
    decreases deltas.len(),
{
    if deltas.len() == 0 {
        state
    } else {
        quiet_state(
            delay,
            ignore_duration,
            triggers,
            cancels,
            spec_step(
                delay,
                ignore_duration,
                triggers,
                cancels,
                state,
                deltas[0],
                snapshot,
                snapshot,
            ).state,
            deltas.drop_first(),
            snapshot,
        )
    }
}

/// A sum of unsigned deltas is never negative.
pub proof fn lemma_sum_nonneg(deltas: Seq<u64>)
    ensures
        sum_of(deltas) >= 0,
    decreases deltas.len(),
{
    if deltas.len() > 0 {
        lemma_sum_nonneg(deltas.drop_first());
    }
}

/// Appending one delta adds it to the sum.
pub proof fn lemma_sum_push(deltas: Seq<u64>, delta: u64)
    ensures
        sum_of(deltas.push(delta)) == sum_of(deltas) + delta,
    decreases deltas.len(),
{
    if deltas.len() == 0 {
        assert(deltas.push(delta).drop_first() =~= Seq::<u64>::empty());
        assert(sum_of(Seq::<u64>::empty()) == 0);
    } else {
        assert(deltas.push(delta).drop_first() =~= deltas.drop_first().push(delta));
        lemma_sum_push(deltas.drop_first(), delta);
    }
}

/// Idempotent re-arming, one iteration: while the pressed keys do not change,
/// no iteration re-arms or clears the countdown; it only advances by time.
pub proof fn lemma_unchanged_snapshot_only_ticks(
    delay: u64,
    ignore_duration: u64,
    triggers: Seq<u32>,
    cancels: Seq<u32>,
    state: TimerState,
    delta: u64,
    snapshot: Seq<u32>,
)
    ensures
        ({
            let r = spec_step(
                delay,
                ignore_duration,
                triggers,
                cancels,
                state,
                delta,
                snapshot,
                snapshot,
            );
            &&& !r.started
            &&& !r.cleared
            &&& r.state == spec_tick(state, delta, delay)
        }),
{
}

/// Idempotent re-arming, exactly: an iteration in which neither the pressed
/// keys nor the clock moved, and whose countdown has not yet reached the
/// delay, changes nothing and emits nothing.
pub proof fn lemma_unchanged_snapshot_is_no_op(
    delay: u64,
    ignore_duration: u64,
    triggers: Seq<u32>,
    cancels: Seq<u32>,
    state: TimerState,
    snapshot: Seq<u32>,
)
    requires
        state matches TimerState::Counting { elapsed } ==> elapsed < delay,
    ensures
        ({
            let r = spec_step(
                delay,
                ignore_duration,
                triggers,
                cancels,
                state,
                0,
                snapshot,
                snapshot,
            );
            &&& r.state == state
            &&& !r.started
            &&& !r.cleared
            &&& !r.played
        }),
{
}

/// Idempotent re-arming, whole runs: over any run of identical snapshots a
/// disabled countdown stays disabled, whatever time passes.
pub proof fn lemma_quiet_run_stays_disabled(
    delay: u64,
    ignore_duration: u64,
    triggers: Seq<u32>,
    cancels: Seq<u32>,
    deltas: Seq<u64>,
    snapshot: Seq<u32>,
)
    ensures
        quiet_state(
            delay,
            ignore_duration,
            triggers,
            cancels,
            TimerState::Disabled,
            deltas,
            snapshot,
        ) is Disabled,
    decreases deltas.len(),
{
    if deltas.len() > 0 {
        lemma_quiet_run_stays_disabled(
            delay,
            ignore_duration,
            triggers,
            cancels,
            deltas.drop_first(),
            snapshot,
        );
    }
}

/// While every partial sum of the coming deltas keeps the countdown short of
/// the delay, a quiet run only accumulates: the countdown ends at its start
/// value plus the whole sum.
pub proof fn lemma_quiet_run_accumulates(
    delay: u64,
    ignore_duration: u64,
    triggers: Seq<u32>,
    cancels: Seq<u32>,
    elapsed: u64,
    deltas: Seq<u64>,
    snapshot: Seq<u32>,
)
    requires
        forall|k: int|
            1 <= k <= deltas.len() ==> elapsed + sum_of(#[trigger] deltas.take(k)) < delay,
    ensures
        quiet_state(
            delay,
            ignore_duration,
            triggers,
            cancels,
            TimerState::Counting { elapsed },
            deltas,
            snapshot,
        ) == (TimerState::Counting { elapsed: (elapsed + sum_of(deltas)) as u64 }),
    decreases deltas.len(),
{
    if deltas.len() == 0 {
    } else {
        let d0 = deltas[0];
        assert(deltas.take(1).drop_first() =~= Seq::<u64>::empty());
        assert(sum_of(Seq::<u64>::empty()) == 0);
        assert(sum_of(deltas.take(1)) == d0);
        assert(elapsed + d0 < delay);
        let next: u64 = (elapsed + d0) as u64;
        let rest = deltas.drop_first();
        assert forall|k: int| 1 <= k <= rest.len() implies next + sum_of(
            #[trigger] rest.take(k),
        ) < delay by {
            assert(deltas.take(k + 1).drop_first() =~= rest.take(k));
            assert(sum_of(deltas.take(k + 1)) == d0 + sum_of(rest.take(k)));
            assert(elapsed + sum_of(deltas.take(k + 1)) < delay);
        }
        lemma_quiet_run_accumulates(
            delay,
            ignore_duration,
            triggers,
            cancels,
            next,
            rest,
            snapshot,
        );
        lemma_sum_nonneg(rest);
        assert(deltas.take(deltas.len() as int) =~= deltas);
    }
}

/// Delay correctness: arm the countdown at zero, keep the pressed keys
/// unchanged, and let time pass in steps `deltas`. As long as no earlier
/// partial sum reached the delay, the countdown before iteration `j` holds
/// exactly the time accumulated so far, and iteration `j` fires playback if
/// and only if the accumulated time then reaches the delay.
pub proof fn lemma_delay_correctness(
    delay: u64,
    ignore_duration: u64,
    triggers: Seq<u32>,
    cancels: Seq<u32>,
    deltas: Seq<u64>,
    snapshot: Seq<u32>,
    j: int,
)
    requires
        0 <= j < deltas.len(),
        forall|k: int| 1 <= k <= j ==> sum_of(#[trigger] deltas.take(k)) < delay,
    ensures
        ({
            let before = quiet_state(
                delay,
                ignore_duration,
                triggers,
                cancels,
                TimerState::Counting { elapsed: 0 },
                deltas.take(j),
                snapshot,
            );
            &&& before == (TimerState::Counting { elapsed: sum_of(deltas.take(j)) as u64 })
            &&& (spec_step(
                delay,
                ignore_duration,
                triggers,
                cancels,
                before,
                deltas[j],
                snapshot,
                snapshot,
            ).played <==> sum_of(deltas.take(j + 1)) >= delay)
        }),
{
    let prefix = deltas.take(j);
    assert forall|k: int| 1 <= k <= prefix.len() implies 0 + sum_of(
        #[trigger] prefix.take(k),
    ) < delay by {
        assert(prefix.take(k) =~= deltas.take(k));
    }
    lemma_quiet_run_accumulates(
        delay,
        ignore_duration,
        triggers,
        cancels,
        0,
        prefix,
        snapshot,
    );
    lemma_sum_nonneg(prefix);
    if j >= 1 {
        assert(prefix.take(j) =~= prefix);
        assert(sum_of(prefix) < delay);
    }
    assert(deltas.take(j + 1) =~= prefix.push(deltas[j]));
    lemma_sum_push(prefix, deltas[j]);
}

/// Cancel precedence in disjoint windows: while the countdown runs and has
/// not yet reached the delay, a changed snapshot holding a cancel key and no
/// trigger key clears the countdown, and no playback fires.
pub proof fn lemma_cancel_clears_pending(
    delay: u64,
    ignore_duration: u64,
    triggers: Seq<u32>,
    cancels: Seq<u32>,
    elapsed: u64,
    delta: u64,
    snapshot: Seq<u32>,
    previous: Seq<u32>,
)
    requires
        elapsed + delta < delay,
        snapshot != previous,
        has_key_in(snapshot, cancels),
        !has_key_in(snapshot, triggers),
    ensures
        ({
            let r = spec_step(
                delay,
                ignore_duration,
                triggers,
                cancels,
                TimerState::Counting { elapsed },
                delta,
                snapshot,
                previous,
            );
            &&& r.state is Disabled
            &&& r.cleared
            &&& !r.played
            &&& !r.started
        }),
{
}

/// Trigger overrides cancel: when a changed snapshot holds both a trigger key
/// and a cancel key and re-arming is allowed, the countdown restarts at zero
/// rather than being cleared.
pub proof fn lemma_trigger_overrides_cancel(
    delay: u64,
    ignore_duration: u64,
    triggers: Seq<u32>,
    cancels: Seq<u32>,
    state: TimerState,
    delta: u64,
    snapshot: Seq<u32>,
    previous: Seq<u32>,
)
    requires
        snapshot != previous,
        has_key_in(snapshot, triggers),
        has_key_in(snapshot, cancels),
        rearm_allowed(spec_tick(state, delta, delay), ignore_duration),
    ensures
        ({
            let r = spec_step(
                delay,
                ignore_duration,
                triggers,
                cancels,
                state,
                delta,
                snapshot,
                previous,
            );
            &&& r.state == (TimerState::Counting { elapsed: 0 })
            &&& r.started
            &&& !r.cleared
        }),
{
}

/// Ignore-duration gating: while the countdown runs with an elapsed time
/// still at or under the ignore-duration, a trigger press does not restart
/// it; the countdown just keeps accumulating.
pub proof fn lemma_ignore_duration_gates(
    delay: u64,
    ignore_duration: u64,
    triggers: Seq<u32>,
    cancels: Seq<u32>,
    elapsed: u64,
    delta: u64,
    snapshot: Seq<u32>,
    previous: Seq<u32>,
)
    requires
        elapsed + delta < delay,
        elapsed + delta <= ignore_duration,
        !has_key_in(snapshot, cancels),
    ensures
        ({
            let r = spec_step(
                delay,
                ignore_duration,
                triggers,
                cancels,
                TimerState::Counting { elapsed },
                delta,
                snapshot,
                previous,
            );
            &&& r.state == (TimerState::Counting { elapsed: (elapsed + delta) as u64 })
            &&& !r.started
            &&& !r.played
        }),
{
}

/// Cancel with no active countdown is a no-op: while disabled, a snapshot
/// without a trigger key leaves the machine disabled and emits nothing,
/// whether or not it holds a cancel key.
pub proof fn lemma_cancel_while_disabled(
    delay: u64,
    ignore_duration: u64,
    triggers: Seq<u32>,
    cancels: Seq<u32>,
    delta: u64,
    snapshot: Seq<u32>,
    previous: Seq<u32>,
)
    requires
        !has_key_in(snapshot, triggers),
    ensures
        ({
            let r = spec_step(
                delay,
                ignore_duration,
                triggers,
                cancels,
                TimerState::Disabled,
                delta,
                snapshot,
                previous,
            );
            &&& r.state is Disabled
            &&& !r.cleared
            &&& !r.started
            &&& !r.played
        }),
{
}

} // verus!

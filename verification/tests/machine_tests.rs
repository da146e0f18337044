use taliesin::config::Config;
use taliesin::machine::step;
use taliesin::TimerState;

const TRIGGER: u32 = 7;
const CANCEL: u32 = 9;
const OTHER: u32 = 11;

fn config(delay: u64, ignore_duration: u64) -> Config {
    Config {
        trigger_keys: vec![TRIGGER],
        sound_file: "beep.wav".to_string(),
        delay,
        ignore_duration,
        cancel_keys: vec![CANCEL],
    }
}

#[test]
fn identical_snapshots_never_rearm() {
    let cfg = config(1000, 0);
    let held = vec![TRIGGER];
    let mut state = TimerState::Disabled;
    for _ in 0..20 {
        let r = step(&cfg, state, 5, &held, &held);
        assert_eq!(r.state, TimerState::Disabled);
        assert!(!r.started);
        assert!(!r.cleared);
        assert!(!r.played);
        state = r.state;
    }
}

#[test]
fn unchanged_snapshot_only_accumulates() {
    let cfg = config(1000, 0);
    let held = vec![TRIGGER];
    let r = step(&cfg, TimerState::Counting { elapsed: 200 }, 50, &held, &held);
    assert_eq!(r.state, TimerState::Counting { elapsed: 250 });
    assert!(!r.started && !r.cleared && !r.played);
}

#[test]
fn arming_on_trigger_press() {
    let cfg = config(1000, 0);
    let r = step(&cfg, TimerState::Disabled, 3, &vec![TRIGGER], &vec![]);
    assert_eq!(r.state, TimerState::Counting { elapsed: 0 });
    assert!(r.started);
    assert!(!r.played && !r.cleared);
}

#[test]
fn fires_at_delay_not_before() {
    let cfg = config(1000, 0);
    let held = vec![TRIGGER];
    let mut state = TimerState::Counting { elapsed: 0 };
    let mut accumulated: u64 = 0;
    let mut plays = 0;
    for _ in 0..7 {
        let r = step(&cfg, state, 150, &held, &held);
        accumulated += 150;
        if accumulated >= 1000 {
            assert!(r.played);
            assert_eq!(r.state, TimerState::Disabled);
            plays += 1;
            break;
        } else {
            assert!(!r.played);
            assert_eq!(r.state, TimerState::Counting { elapsed: accumulated });
        }
        state = r.state;
    }
    assert_eq!(plays, 1);
    assert_eq!(accumulated, 1050);
}

#[test]
fn fires_exactly_at_delay_boundary() {
    let cfg = config(1000, 0);
    let keys = vec![];
    let r = step(&cfg, TimerState::Counting { elapsed: 999 }, 1, &keys, &keys);
    assert!(r.played);
    assert_eq!(r.state, TimerState::Disabled);
}

#[test]
fn fires_on_huge_delta() {
    let cfg = config(1000, 0);
    let keys = vec![];
    let r = step(&cfg, TimerState::Counting { elapsed: 500 }, u64::MAX, &keys, &keys);
    assert!(r.played);
    assert_eq!(r.state, TimerState::Disabled);
}

#[test]
fn cancel_clears_pending_countdown() {
    let cfg = config(1000, 0);
    // Arm, let some time pass, then press the cancel key in a later iteration.
    let r1 = step(&cfg, TimerState::Disabled, 2, &vec![TRIGGER], &vec![]);
    assert_eq!(r1.state, TimerState::Counting { elapsed: 0 });
    let r2 = step(&cfg, r1.state, 300, &vec![TRIGGER], &vec![TRIGGER]);
    assert_eq!(r2.state, TimerState::Counting { elapsed: 300 });
    let r3 = step(&cfg, r2.state, 100, &vec![CANCEL], &vec![TRIGGER]);
    assert_eq!(r3.state, TimerState::Disabled);
    assert!(r3.cleared);
    assert!(!r3.played);
}

#[test]
fn trigger_overrides_cancel_in_same_iteration() {
    let cfg = config(1000, 0);
    let r = step(
        &cfg,
        TimerState::Counting { elapsed: 400 },
        10,
        &vec![TRIGGER, CANCEL],
        &vec![],
    );
    assert_eq!(r.state, TimerState::Counting { elapsed: 0 });
    assert!(r.started);
    assert!(!r.cleared);
}

#[test]
fn ignore_duration_gates_rearm() {
    let cfg = config(1000, 500);
    // Countdown at 200 ms, under the 500 ms ignore window: a key-state change
    // holding the trigger key must not restart it.
    let r = step(
        &cfg,
        TimerState::Counting { elapsed: 200 },
        30,
        &vec![TRIGGER, OTHER],
        &vec![TRIGGER],
    );
    assert_eq!(r.state, TimerState::Counting { elapsed: 230 });
    assert!(!r.started);
}

#[test]
fn rearm_allowed_once_past_ignore_duration() {
    let cfg = config(1000, 500);
    let r = step(
        &cfg,
        TimerState::Counting { elapsed: 600 },
        10,
        &vec![TRIGGER, OTHER],
        &vec![TRIGGER],
    );
    assert_eq!(r.state, TimerState::Counting { elapsed: 0 });
    assert!(r.started);
}

#[test]
fn cancel_while_disabled_is_a_no_op() {
    let cfg = config(1000, 0);
    let r = step(&cfg, TimerState::Disabled, 50, &vec![CANCEL], &vec![]);
    assert_eq!(r.state, TimerState::Disabled);
    assert!(!r.cleared);
    assert!(!r.started);
    assert!(!r.played);
}

#[test]
fn any_snapshot_change_with_held_trigger_rearms() {
    // The edge detection is coarse: releasing an unrelated key while the
    // trigger key stays held still counts as a trigger press.
    let cfg = config(1000, 0);
    let r = step(
        &cfg,
        TimerState::Counting { elapsed: 700 },
        5,
        &vec![TRIGGER],
        &vec![TRIGGER, OTHER],
    );
    assert_eq!(r.state, TimerState::Counting { elapsed: 0 });
    assert!(r.started);
}

#[test]
fn end_to_end_single_play() {
    // keys = [A], file = beep.wav, delay = 1000, ignore-duration = 0.
    let cfg = Config::load(
        &vec!["A".to_string()],
        "beep.wav".to_string(),
        &Some("1000".to_string()),
        &None,
        &vec![],
    )
    .unwrap();
    let a = cfg.trigger_keys[0];
    let mut state = TimerState::initial();
    let mut previous: Vec<u32> = vec![];
    let mut plays = 0;
    let mut starts = 0;
    // Iteration 1: the A key goes down.
    let snapshot = vec![a];
    let r = step(&cfg, state, 1, &snapshot, &previous);
    assert_eq!(r.state, TimerState::Counting { elapsed: 0 });
    assert!(r.started);
    starts += 1;
    state = r.state;
    previous = snapshot;
    // Further iterations: A stays held, time accumulates in 90 ms steps.
    for _ in 0..13 {
        let snapshot = vec![a];
        let r = step(&cfg, state, 90, &snapshot, &previous);
        if r.played {
            plays += 1;
            assert_eq!(r.state, TimerState::Disabled);
        }
        if r.started {
            starts += 1;
        }
        state = r.state;
        previous = snapshot;
    }
    // 12 * 90 = 1080 >= 1000: fired exactly once, and only the first
    // iteration armed the countdown.
    assert_eq!(plays, 1);
    assert_eq!(starts, 1);
    assert_eq!(state, TimerState::Disabled);
}

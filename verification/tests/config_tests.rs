use taliesin::config::{Config, ConfigError};
use taliesin::millis::parse_millis;

fn strings(tokens: &[&str]) -> Vec<String> {
    tokens.iter().map(|t| t.to_string()).collect()
}

#[test]
fn parse_plain_number() {
    assert_eq!(parse_millis("0"), Some(0));
    assert_eq!(parse_millis("123"), Some(123));
    assert_eq!(parse_millis("1000"), Some(1000));
}

#[test]
fn parse_with_plus_sign() {
    assert_eq!(parse_millis("+42"), Some(42));
}

#[test]
fn parse_rejects_empty_and_bare_sign() {
    assert_eq!(parse_millis(""), None);
    assert_eq!(parse_millis("+"), None);
}

#[test]
fn parse_rejects_non_digits() {
    assert_eq!(parse_millis("12a"), None);
    assert_eq!(parse_millis("-5"), None);
    assert_eq!(parse_millis("1 000"), None);
    assert_eq!(parse_millis("1.5"), None);
}

#[test]
fn parse_at_and_over_the_limit() {
    assert_eq!(parse_millis("18446744073709551615"), Some(u64::MAX));
    assert_eq!(parse_millis("18446744073709551616"), None);
    assert_eq!(parse_millis("999999999999999999999999"), None);
}

#[test]
fn load_full_config() {
    let cfg = Config::load(
        &strings(&["A", "B"]),
        "beep.wav".to_string(),
        &Some("1000".to_string()),
        &Some("500".to_string()),
        &strings(&["Escape"]),
    )
    .unwrap();
    assert_eq!(cfg.trigger_keys.len(), 2);
    assert_eq!(cfg.cancel_keys.len(), 1);
    assert_eq!(cfg.sound_file, "beep.wav");
    assert_eq!(cfg.delay, 1000);
    assert_eq!(cfg.ignore_duration, 500);
}

#[test]
fn load_resolves_distinct_keys_to_distinct_codes() {
    let cfg = Config::load(
        &strings(&["A", "B", "A"]),
        "s.wav".to_string(),
        &Some("1".to_string()),
        &None,
        &strings(&[]),
    )
    .unwrap();
    assert_ne!(cfg.trigger_keys[0], cfg.trigger_keys[1]);
    assert_eq!(cfg.trigger_keys[0], cfg.trigger_keys[2]);
}

#[test]
fn load_ignore_duration_defaults_to_zero() {
    let cfg = Config::load(
        &strings(&["Space"]),
        "s.wav".to_string(),
        &Some("250".to_string()),
        &None,
        &strings(&[]),
    )
    .unwrap();
    assert_eq!(cfg.ignore_duration, 0);
}

#[test]
fn load_requires_trigger_keys() {
    let r = Config::load(
        &strings(&[]),
        "s.wav".to_string(),
        &Some("250".to_string()),
        &None,
        &strings(&[]),
    );
    assert_eq!(r.unwrap_err(), ConfigError::NoTriggerKeys);
}

#[test]
fn load_rejects_unknown_trigger_key() {
    let r = Config::load(
        &strings(&["NotAKey"]),
        "s.wav".to_string(),
        &Some("250".to_string()),
        &None,
        &strings(&[]),
    );
    assert_eq!(r.unwrap_err(), ConfigError::InvalidTriggerKey);
}

#[test]
fn load_requires_delay() {
    let r = Config::load(&strings(&["A"]), "s.wav".to_string(), &None, &None, &strings(&[]));
    assert_eq!(r.unwrap_err(), ConfigError::MissingDelay);
}

#[test]
fn load_rejects_bad_delay() {
    let r = Config::load(
        &strings(&["A"]),
        "s.wav".to_string(),
        &Some("abc".to_string()),
        &None,
        &strings(&[]),
    );
    assert_eq!(r.unwrap_err(), ConfigError::InvalidDelay);
}

#[test]
fn load_rejects_bad_ignore_duration() {
    let r = Config::load(
        &strings(&["A"]),
        "s.wav".to_string(),
        &Some("250".to_string()),
        &Some("10ms".to_string()),
        &strings(&[]),
    );
    assert_eq!(r.unwrap_err(), ConfigError::InvalidIgnoreDuration);
}

#[test]
fn load_rejects_unknown_cancel_key() {
    let r = Config::load(
        &strings(&["A"]),
        "s.wav".to_string(),
        &Some("250".to_string()),
        &None,
        &strings(&["NotAKey"]),
    );
    assert_eq!(r.unwrap_err(), ConfigError::InvalidCancelKey);
}

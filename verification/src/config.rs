//! The configuration record and its loader.
//!
//! The loader turns raw argument strings into a validated [`Config`] or
//! fails with the first error it meets, checking the trigger keys, then the
//! delay, the ignore-duration and finally the cancel keys.

use crate::keys::{key_code_of, resolve_key};
use crate::millis::{numeral_value, parse_millis, parses_to_u64};
use vstd::prelude::*;

verus! {

/// The validated configuration, immutable after loading.
#[derive(Debug)]
pub struct Config {
    /// Key codes whose press (re)starts the countdown; never empty.
    pub trigger_keys: Vec<u32>,
    /// Path of the sound file to play; not checked until playback.
    pub sound_file: String,
    /// Milliseconds the countdown runs before playback fires.
    pub delay: u64,
    /// Minimum elapsed countdown time before a new trigger press is honoured.
    pub ignore_duration: u64,
    /// Key codes whose press clears a running countdown; may be empty.
    pub cancel_keys: Vec<u32>,
}

impl Config {
    /// The configuration invariant: at least one trigger key.
    pub open spec fn wf(&self) -> bool {
        self.trigger_keys@.len() > 0
    }
}

/// Why loading a configuration failed.
#[derive(Clone, Copy, Debug, PartialEq, Eq, Structural)]
pub enum ConfigError {
    /// No trigger key was given.
    NoTriggerKeys,
    /// A trigger key token is not a known key name.
    InvalidTriggerKey,
    /// No delay was given.
    MissingDelay,
    /// The delay is not a parseable number of milliseconds.
    InvalidDelay,
    /// The ignore-duration is not a parseable number of milliseconds.
    InvalidIgnoreDuration,
    /// A cancel key token is not a known key name.
    InvalidCancelKey,
}

/// Every token resolves to a known key code.
pub open spec fn all_keys_resolve(tokens: Seq<String>) -> bool {
    forall|i: int| 0 <= i < tokens.len() ==> key_code_of(#[trigger] tokens[i]@) is Some
}

/// The key codes the tokens resolve to, in order.
pub open spec fn resolved_codes(tokens: Seq<String>) -> Seq<u32> {
    Seq::new(tokens.len(), |i: int| key_code_of(tokens[i]@)->0)
}

/// The trigger key list is acceptable: non-empty, every token known.
pub open spec fn triggers_ok(tokens: Seq<String>) -> bool {
    tokens.len() > 0 && all_keys_resolve(tokens)
}

/// The delay argument is acceptable: present and parseable.
pub open spec fn delay_ok(token: Option<String>) -> bool {
    token matches Some(s) && parses_to_u64(s@)
}

/// The ignore-duration argument is acceptable: absent, or parseable.
pub open spec fn ignore_ok(token: Option<String>) -> bool {
    token matches Some(s) ==> parses_to_u64(s@)
}

/// The ignore-duration a well-formed argument denotes; absent means zero.
pub open spec fn ignore_value(token: Option<String>) -> int {
    match token {
        Some(s) => numeral_value(s@),
        None => 0,
    }
}

/// Resolve a whole list of key name tokens, or report the first unknown one.
fn resolve_all(tokens: &Vec<String>) -> (r: Option<Vec<u32>>)
    ensures
        r is Some <==> all_keys_resolve(tokens@),
        r matches Some(v) ==> v@ == resolved_codes(tokens@),
{
    let mut out: Vec<u32> = Vec::new();
    let mut i: usize = 0;
    while i < tokens.len()
        invariant
            i <= tokens.len(),
            out@.len() == i,
            forall|j: int| 0 <= j < i ==> key_code_of(#[trigger] tokens@[j]@) is Some,
            forall|j: int| 0 <= j < i ==> out@[j] == key_code_of(#[trigger] tokens@[j]@)->0,
        decreases tokens.len() - i,
    {
        match resolve_key(tokens[i].as_str()) {
            Some(code) => out.push(code),
            None => {
                return None;
            },
        }
        i = i + 1;
    }
    proof {
        assert(out@ =~= resolved_codes(tokens@));
    }
    Some(out)
}

impl Config {
    /// Build a configuration from raw argument strings.
    ///
    /// Succeeds exactly when the trigger list is non-empty and every token
    /// known, the delay is present and parseable, the ignore-duration is
    /// absent or parseable, and every cancel token is known; otherwise the
    /// error names the first check that failed.
    pub fn load(
        trigger_tokens: &Vec<String>,
        sound_file: String,
        delay_token: &Option<String>,
        ignore_token: &Option<String>,
        cancel_tokens: &Vec<String>,
    ) -> (r: Result<Config, ConfigError>)
        ensures
            match r {
                Ok(c) => {
                    &&& triggers_ok(trigger_tokens@)
                    &&& delay_ok(*delay_token)
                    &&& ignore_ok(*ignore_token)
                    &&& all_keys_resolve(cancel_tokens@)
                    &&& c.wf()
                    &&& c.trigger_keys@ == resolved_codes(trigger_tokens@)
                    &&& c.cancel_keys@ == resolved_codes(cancel_tokens@)
                    &&& c.sound_file@ == sound_file@
                    &&& c.delay == numeral_value(delay_token->0@)
                    &&& c.ignore_duration == ignore_value(*ignore_token)
                },
                Err(e) => match e {
                    ConfigError::NoTriggerKeys => trigger_tokens@.len() == 0,
                    ConfigError::InvalidTriggerKey => trigger_tokens@.len() > 0
                        && !all_keys_resolve(trigger_tokens@),
                    ConfigError::MissingDelay => triggers_ok(trigger_tokens@)
                        && delay_token is None,
                    ConfigError::InvalidDelay => triggers_ok(trigger_tokens@)
                        && (delay_token matches Some(s) && !parses_to_u64(s@)),
                    ConfigError::InvalidIgnoreDuration => triggers_ok(trigger_tokens@)
                        && delay_ok(*delay_token) && (ignore_token matches Some(s)
                        && !parses_to_u64(s@)),
                    ConfigError::InvalidCancelKey => triggers_ok(trigger_tokens@)
                        && delay_ok(*delay_token) && ignore_ok(*ignore_token)
                        && !all_keys_resolve(cancel_tokens@),
                },
            },
    {
        if trigger_tokens.len() == 0 {
            return Err(ConfigError::NoTriggerKeys);
        }
        let trigger_keys = match resolve_all(trigger_tokens) {
            Some(v) => v,
            None => {
                return Err(ConfigError::InvalidTriggerKey);
            },
        };
        let delay = match delay_token {
            None => {
                return Err(ConfigError::MissingDelay);
            },
            Some(s) => match parse_millis(s.as_str()) {
                Some(n) => n,
                None => {
                    return Err(ConfigError::InvalidDelay);
                },
            },
        };
        let ignore_duration = match ignore_token {
            None => 0u64,
            Some(s) => match parse_millis(s.as_str()) {
                Some(n) => n,
                None => {
                    return Err(ConfigError::InvalidIgnoreDuration);
                },
            },
        };
        let cancel_keys = match resolve_all(cancel_tokens) {
            Some(v) => v,
            None => {
                return Err(ConfigError::InvalidCancelKey);
            },
        };
        Ok(Config { trigger_keys, sound_file, delay, ignore_duration, cancel_keys })
    }
}

} // verus!

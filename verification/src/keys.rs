//! Resolution of key names to key codes.
//!
//! A key is carried through the rest of the crate as a plain `u32` code, so
//! that membership tests on snapshots are ordinary integer comparisons. The
//! resolution of a name such as `"A"` or `"LShift"` to its code is the one
//! place the keyboard crate decides.

use std::str::FromStr;
use vstd::prelude::*;

verus! {

/// The key code that a key name resolves to, or `None` for an unknown name.
pub uninterp spec fn key_code_of(name: Seq<char>) -> Option<u32>;

/// Relies on `device_query::Keycode::from_str`: a fixed table from key names
/// to keycodes, depending on the name alone.
#[verifier::external_body]
pub(crate) fn resolve_key(name: &str) -> (r: Option<u32>)
    ensures
        r == key_code_of(name@),
{
    match device_query::Keycode::from_str(name) {
        Ok(k) => Some(k as u32),
        Err(_) => None,
    }
}

} // verus!

//! Trusted bridges to the clock and to identifier generation.
//!
//! Both calls depend on the environment, so their contracts state only
//! what holds of every possible outcome; everything the library derives
//! from them is proved for every value they could return.

use vstd::prelude::*;

verus! {

/// Relies on chrono's `Utc::now` and `timestamp`: the current time as Unix
/// seconds.  chrono bounds every `DateTime` between its minimum and
/// maximum dates (roughly year -262143 to year 262142), so the timestamp
/// is far from the `i64` range ends; nothing else is known of it.
#[verifier::external_body]
pub(crate) fn current_timestamp() -> (t: i64)
    ensures
        -10_000_000_000_000 <= t <= 10_000_000_000_000,
{
    chrono::Utc::now().timestamp()
}

/// Relies on uuid's `Uuid::new_v4` and its `Display` form: a fresh random
/// version-4 UUID rendered in the hyphenated format, which is always 36
/// characters.  The value itself is random; nothing else is known of it.
#[verifier::external_body]
pub(crate) fn new_uuid_string() -> (s: String)
    ensures
        s@.len() == 36,
{
    uuid::Uuid::new_v4().to_string()
}

} // verus!

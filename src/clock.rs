//! Wall-clock readings and the expiry arithmetic built on them.

use vstd::prelude::*;

verus! {

/// A UTC instant: whole seconds since 1970-01-01 and the nanoseconds within
/// that second.
#[derive(Debug, Clone, Copy, PartialEq, Eq, Structural)]
pub struct Timestamp {
    pub secs: i64,
    pub nanos: u32,
}

/// Relies on `std::time::SystemTime::duration_since(UNIX_EPOCH)` applied to
/// `SystemTime::now()`, read through `Duration::as_secs` and
/// `Duration::subsec_nanos`: none when the clock reads before 1970; the
/// nanoseconds are always under one billion.
#[verifier::external_body]
fn since_unix_epoch() -> (r: Option<(u64, u32)>)
    ensures
        r matches Some(p) ==> p.1 < 1_000_000_000,
{
    std::time::SystemTime::now()
        .duration_since(std::time::UNIX_EPOCH)
        .ok()
        .map(|d| (d.as_secs(), d.subsec_nanos()))
}

/// The current time: none when the clock reads before 1970 (or past the
/// range of a signed 64-bit count of seconds).
pub fn now() -> (r: Option<Timestamp>)
    ensures
        r matches Some(t) ==> t.secs >= 0 && t.nanos < 1_000_000_000,
{
    match since_unix_epoch() {
        Some((secs, nanos)) => if secs <= i64::MAX as u64 {
            Some(Timestamp { secs: secs as i64, nanos })
        } else {
            None
        },
        None => None,
    }
}

/// The instant `ttl` seconds after `now`, if it fits in 64 bits.
pub open spec fn expiry(now: u64, ttl: u64) -> Option<u64> {
    if now + ttl <= u64::MAX {
        Some((now + ttl) as u64)
    } else {
        None
    }
}

/// The instant `ttl` seconds after `now`, in seconds since 1970.
pub fn expiry_after(now: u64, ttl: u64) -> (r: Option<u64>)
    ensures
        r == expiry(now, ttl),
{
    now.checked_add(ttl)
}

/// `exp` is `ttl` seconds after some reading of the clock.
pub open spec fn expires_from_clock(exp: u64, ttl: u64) -> bool {
    exists|now: u64| #[trigger] expiry(now, ttl) == Some(exp)
}

/// The instant `secs` seconds from now, in whole seconds since 1970: none
/// when the clock reads before 1970 or the sum does not fit in 64 bits.
pub fn seconds_from_now(secs: u64) -> (r: Option<u64>)
    ensures
        r matches Some(t) ==> t >= secs && expires_from_clock(t, secs),
{
    match since_unix_epoch() {
        Some((now, _)) => expiry_after(now, secs),
        None => None,
    }
}

} // verus!

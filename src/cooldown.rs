//! The cooldown gate: restarts closer together than the cooldown window are
//! refused.
use vstd::prelude::*;

verus! {

/// Milliseconds from `since` to `now` on a monotonic clock; a reading that
/// lies before `since` counts as no time at all.
pub open spec fn elapsed(now: u64, since: u64) -> int {
    if now >= since {
        now - since
    } else {
        0
    }
}

/// A restart at `now` is allowed: there was none yet, or the last one lies at
/// least `cooldown_ms` back.
pub open spec fn allows(now: u64, last_restart: Option<u64>, cooldown_ms: u64) -> bool {
    match last_restart {
        None => true,
        Some(t) => elapsed(now, t) >= cooldown_ms,
    }
}

/// Whether a restart may start at `now` (all times in milliseconds).
pub fn cooldown_allows(now: u64, last_restart: Option<u64>, cooldown_ms: u64) -> (r: bool)
    ensures
        r == allows(now, last_restart, cooldown_ms),
{
    match last_restart {
        None => true,
        Some(t) => {
            let gap: u64 = if now >= t {
                now - t
            } else {
                0
            };
            gap >= cooldown_ms
        },
    }
}

} // verus!

use vstd::prelude::*;

pub mod frame;
pub mod service;
pub mod heartbeat;

verus! {

/// Default time between two liveness probes, in milliseconds.
pub const HEARTBEAT_INTERVAL_MS: u64 = 5000;

/// Default silence after which a peer is presumed dead, in milliseconds.
pub const CLIENT_TIMEOUT_MS: u64 = 10000;

/// Time elapsed between `since` and `now`; zero where the clock reads earlier.
pub fn elapsed(now: u64, since: u64) -> (r: u64)
    ensures
        r == (if now >= since { now - since } else { 0 }),
{
    if now >= since {
        now - since
    } else {
        0
    }
}

} // verus!

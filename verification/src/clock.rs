//! The clock.
use crate::outside::unix_epoch;
use std::time::{Duration, SystemTime, SystemTimeError};
use vstd::prelude::*;

verus! {

/// The reading of a clock that may stand before its epoch: 0 where it does.
pub fn seconds_or_zero(elapsed: Option<u64>) -> (r: u64)
    ensures
        r == match elapsed {
            Some(secs) => secs,
            None => 0,
        },
{
    match elapsed {
        Some(secs) => secs,
        None => 0,
    }
}

/// Whether a number of seconds is what the time since the epoch comes to: its whole seconds, and 0
/// where the clock stands before the epoch.
pub open spec fn comes_to(elapsed: Result<Duration, SystemTimeError>, secs: u64) -> bool {
    match elapsed {
        Ok(d) => call_ensures(Duration::as_secs, (&d,), secs),
        Err(_) => secs == 0,
    }
}

/// Whether the time since the epoch is what the system clock gave: `SystemTime::now` gave the moment,
/// and `SystemTime::duration_since` what had elapsed then since the start of the Unix clock.
pub closed spec fn clock_gave(
    now: SystemTime,
    epoch: SystemTime,
    elapsed: Result<Duration, SystemTimeError>,
) -> bool {
    &&& call_ensures(SystemTime::now, (), now)
    &&& call_ensures(unix_epoch, (), epoch)
    &&& call_ensures(SystemTime::duration_since, (&now, epoch), elapsed)
}

/// Whether a number of seconds is a reading of the system clock.
pub open spec fn clock_reads(secs: u64) -> bool {
    exists|now: SystemTime, epoch: SystemTime, elapsed: Result<Duration, SystemTimeError>|
        #[trigger] clock_gave(now, epoch, elapsed) && comes_to(elapsed, secs)
}

/// The seconds since the Unix epoch as the system clock has them; 0 where it stands before the
/// epoch. The reading is the clock's own, so it is not fixed which number it is.
pub fn now_secs() -> (r: u64)
    ensures
        clock_reads(r),
{
    let now = SystemTime::now();
    let epoch = unix_epoch();
    let elapsed = now.duration_since(epoch);
    assert(clock_gave(now, epoch, elapsed));
    match elapsed {
        Ok(d) => seconds_or_zero(Some(d.as_secs())),
        Err(_) => seconds_or_zero(None),
    }
}

} // verus!

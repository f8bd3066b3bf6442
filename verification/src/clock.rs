use vstd::prelude::*;
use crate::consts::{PLAYER_INTERACTION_TIMEOUT, PLAYER_TIMEOUT};

verus! {

/// Reads the wall clock with `time::get_time()` and hands back the seconds
/// and nanoseconds of the `Timespec`. Claimed: the nanoseconds lie in
/// `0..1_000_000_000`, which `Timespec::new` asserts for every value it
/// builds. Nothing is stated of the seconds: they depend on the clock.
#[verifier::external_body]
fn clock_now() -> (t: (i64, i32))
    ensures
        0 <= t.1 < 1_000_000_000,
{
    let now = time::get_time();
    (now.sec, now.nsec)
}

/// Milliseconds since the epoch of the instant `sec` seconds and `nsec`
/// nanoseconds after it, or `None` where `sec * 1000` or the sum does not
/// fit in an `i64`.
pub open spec fn millis_of(sec: i64, nsec: i32) -> Option<i64> {
    let ms = sec * 1000;
    let total = ms + nsec / 1_000_000;
    if ms < i64::MIN || ms > i64::MAX || total < i64::MIN || total > i64::MAX {
        None
    } else {
        Some(total as i64)
    }
}

/// A timestamp in milliseconds lies in the second it is taken in: where it
/// exists it is `sec * 1000` plus the whole milliseconds of `nsec`, so
/// between `sec * 1000` and `sec * 1000 + 999`; it is missing only where
/// `sec * 1000` or the sum leaves the `i64` range.
pub proof fn lemma_millis_within_second(sec: i64, nsec: i32)
    requires
        0 <= nsec < 1_000_000_000,
    ensures
        millis_of(sec, nsec) matches Some(ms) ==> sec * 1000 <= ms <= sec * 1000 + 999 && ms == sec * 1000 + nsec
            / 1_000_000,
        (millis_of(sec, nsec) is None) <==> (sec * 1000 < i64::MIN || sec * 1000 > i64::MAX || sec * 1000 + nsec
            / 1_000_000 < i64::MIN || sec * 1000 + nsec / 1_000_000 > i64::MAX),
{
}

/// Milliseconds since the epoch, as [`millis_of`] says.
pub fn millis_since_epoch(sec: i64, nsec: i32) -> (r: Option<i64>)
    requires
        0 <= nsec < 1_000_000_000,
    ensures
        r == millis_of(sec, nsec),
{
    let ms = match sec.checked_mul(1000) {
        Some(v) => v,
        None => return None,
    };
    let sub = (nsec as i64) / 1_000_000;
    ms.checked_add(sub)
}

/// The current time in milliseconds since the epoch, read from the wall
/// clock: [`millis_of`] some clock reading, or `None` where it does not fit
/// in an `i64`.
pub fn now_millis() -> (r: Option<i64>)
    ensures
        exists|sec: i64, nsec: i32| 0 <= nsec < 1_000_000_000 && r == millis_of(sec, nsec),
{
    let (sec, nsec) = clock_now();
    millis_since_epoch(sec, nsec)
}

/// The oldest timestamp (exclusive) at which a position update still counts
/// as recent at `now_ms`: [`PLAYER_TIMEOUT`] earlier, or `None` where that
/// instant does not fit in an `i64`.
pub fn activity_cutoff(now_ms: i64) -> (r: Option<i64>)
    ensures
        r == (if now_ms - PLAYER_TIMEOUT < i64::MIN { None } else { Some((now_ms - PLAYER_TIMEOUT) as i64) }),
{
    now_ms.checked_sub(PLAYER_TIMEOUT)
}

/// The oldest timestamp (exclusive) at which a finished encounter between
/// two players still keeps them from meeting again at `now_ms`:
/// [`PLAYER_INTERACTION_TIMEOUT`] earlier, or `None` where that instant does
/// not fit in an `i64`.
pub fn interaction_cutoff(now_ms: i64) -> (r: Option<i64>)
    ensures
        r == (if now_ms - PLAYER_INTERACTION_TIMEOUT < i64::MIN {
            None
        } else {
            Some((now_ms - PLAYER_INTERACTION_TIMEOUT) as i64)
        }),
{
    now_ms.checked_sub(PLAYER_INTERACTION_TIMEOUT)
}

} // verus!

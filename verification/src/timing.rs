//! Translation of a requested time into a stream's integer timestamp
//! domain, and the window of the one backward seek issued against the
//! container.
//!
//! A stream's timebase is a positive rational `num / den` seconds per tick.
//! The caller's time arrives as a whole number of microseconds; the target
//! timestamp is `time_sec * den / num` truncated toward zero, which for the
//! microsecond representation is `time_micros * den / (num * 1_000_000)`
//! in integer arithmetic.
//!
//! Policy for out-of-range requests, applied consistently: a negative time
//! is rejected as invalid input rather than clamped to the stream start,
//! and so is a time whose target timestamp would not fit the timestamp
//! domain.

use vstd::prelude::*;
use vstd::arithmetic::div_mod::lemma_div_of0;
use vstd::arithmetic::div_mod::lemma_div_pos_is_pos;
use vstd::arithmetic::mul::lemma_mul_strictly_positive;
use vstd::arithmetic::mul::lemma_mul_upper_bound;
use crate::error::{VideoError, VideoErrorCode};

verus! {

/// A stream's timebase: `num / den` seconds per timestamp tick, both parts
/// positive.
#[derive(Clone, Copy, Debug, PartialEq, Eq, Structural)]
pub struct TimeBase {
    pub num: u32,
    pub den: u32,
}

impl TimeBase {
    /// Both parts of a timebase are positive integers.
    pub open spec fn wf(self) -> bool {
        self.num > 0 && self.den > 0
    }

    /// A timebase from its two parts; zero in either part is rejected.
    pub fn new(num: u32, den: u32) -> (r: Result<TimeBase, VideoError>)
        ensures
            num > 0 && den > 0 ==> (r matches Ok(tb) && tb.num == num && tb.den == den
                && tb.wf()),
            !(num > 0 && den > 0) ==> (r matches Err(e) && e.code
                == VideoErrorCode::InvalidInput),
    {
        if num == 0 || den == 0 {
            Err(VideoError::new(VideoErrorCode::InvalidInput, None))
        } else {
            Ok(TimeBase { num, den })
        }
    }
}

/// The target timestamp of a nonnegative time of `micros` microseconds in
/// the timebase `num / den`: `micros * den / (num * 1_000_000)`, truncated.
pub open spec fn spec_target_ts(micros: int, num: int, den: int) -> int {
    (micros * den) / (num * 1_000_000)
}

/// Translates a caller's time, in microseconds, into the stream's
/// timestamp domain by truncating division. A negative time is rejected as
/// invalid input, and so is a time whose target timestamp would exceed the
/// timestamp domain; any other time yields its exact truncated target.
pub fn compute_target_ts(time_micros: i64, tb: TimeBase) -> (r: Result<i64, VideoError>)
    requires
        tb.wf(),
    ensures
        time_micros < 0 ==> (r matches Err(e) && e.code == VideoErrorCode::InvalidInput),
        time_micros >= 0 && spec_target_ts(time_micros as int, tb.num as int, tb.den as int)
            <= i64::MAX ==> (r matches Ok(ts) && ts == spec_target_ts(
            time_micros as int,
            tb.num as int,
            tb.den as int,
        ) && ts >= 0),
        time_micros >= 0 && spec_target_ts(time_micros as int, tb.num as int, tb.den as int)
            > i64::MAX ==> (r matches Err(e) && e.code == VideoErrorCode::InvalidInput),
{
    if time_micros < 0 {
        return Err(VideoError::new(VideoErrorCode::InvalidInput, None));
    }
    proof {
        lemma_mul_upper_bound(time_micros as int, i64::MAX as int, tb.den as int, u32::MAX as int);
        lemma_mul_upper_bound(tb.num as int, u32::MAX as int, 1_000_000, 1_000_000);
        lemma_mul_strictly_positive(tb.num as int, 1_000_000);
        lemma_div_pos_is_pos(time_micros as int * tb.den as int, tb.num as int * 1_000_000);
    }
    let ticks: u128 = (time_micros as u128) * (tb.den as u128);
    let divisor: u128 = (tb.num as u128) * 1_000_000u128;
    let q: u128 = ticks / divisor;
    if q > i64::MAX as u128 {
        Err(VideoError::new(VideoErrorCode::InvalidInput, None))
    } else {
        Ok(q as i64)
    }
}

/// With both timebase parts positive, time zero lands on target timestamp
/// zero: the request for the stream's start never skips past any frame.
pub proof fn lemma_zero_time_zero_target(num: int, den: int)
    requires
        num > 0,
        den > 0,
    ensures
        spec_target_ts(0, num, den) == 0,
{
    lemma_mul_strictly_positive(num, 1_000_000);
    lemma_div_of0(num * 1_000_000);
}

/// The window of the one backward seek issued for a target timestamp: the
/// whole container from its start up to the target, so the seek lands on
/// the nearest keyframe at or before the target.
pub fn seek_bounds(target_ts: i64) -> (r: (i64, i64))
    requires
        target_ts >= 0,
    ensures
        r.0 == 0,
        r.1 == target_ts,
        r.0 <= r.1,
{
    (0, target_ts)
}

} // verus!

//! Time helpers: reading the process clock, and rendering durations and
//! relative instants for display.

use vstd::prelude::*;
use std::time::{SystemTime, UNIX_EPOCH};
use vstd::string::StringExecFns;
use crate::digits::{spec_decimal, u64_to_decimal};

verus! {

/// How `format_duration` renders a span of `seconds`: days and hours for
/// a day or more, hours and minutes for an hour or more, minutes alone
/// below that.
pub open spec fn spec_format_duration(seconds: nat) -> Seq<char> {
    let days = seconds / 86400;
    let hours = (seconds % 86400) / 3600;
    let minutes = (seconds % 3600) / 60;
    if days > 0 {
        spec_decimal(days) + "天"@ + spec_decimal(hours) + "小时"@
    } else if hours > 0 {
        spec_decimal(hours) + "小时"@ + spec_decimal(minutes) + "分钟"@
    } else {
        spec_decimal(minutes) + "分钟"@
    }
}

/// How `relative_time` renders an instant `diff` seconds in the past:
/// the coarsest non-zero unit among days, hours and minutes, or the
/// "just now" phrase for anything under a minute (or in the future).
pub open spec fn spec_relative_time(diff: int) -> Seq<char> {
    if diff >= 86400 {
        spec_decimal((diff / 86400) as nat) + "天前"@
    } else if diff >= 3600 {
        spec_decimal((diff / 3600) as nat) + "小时前"@
    } else if diff >= 60 {
        spec_decimal((diff / 60) as nat) + "分钟前"@
    } else {
        "刚刚"@
    }
}

/// Relies on std::time::SystemTime::now and its duration since the unix
/// epoch: the whole seconds elapsed, and the milliseconds of the part
/// second, which std documents as under one thousand. A clock before the
/// epoch reads as the epoch itself.
#[verifier::external_body]
fn unix_clock() -> (r: (u64, u32))
    ensures
        r.1 < 1000,
{
    match SystemTime::now().duration_since(UNIX_EPOCH) {
        Ok(d) => (d.as_secs(), d.subsec_millis()),
        Err(_) => (0, 0),
    }
}

/// Time utility function collection.
pub struct TimeUtils;

impl TimeUtils {
    /// The current unix time in whole seconds; non-negative, and clamped
    /// on a clock reading no signed 64-bit count of seconds can hold.
    pub fn now_timestamp() -> (r: i64)
        ensures
            r >= 0,
    {
        let (secs, _) = unix_clock();
        if secs > 0x7fff_ffff_ffff_ffff {
            i64::MAX
        } else {
            secs as i64
        }
    }

    /// The current unix time in whole milliseconds; non-negative, and
    /// clamped on a clock reading whose millisecond count overflows.
    pub fn now_timestamp_ms() -> (r: i64)
        ensures
            r >= 0,
    {
        let (secs, millis) = unix_clock();
        if secs >= 9_223_372_036_854_775 {
            i64::MAX
        } else {
            (secs * 1000 + millis as u64) as i64
        }
    }

    /// Formats a duration for display, in the coarsest two units.
    pub fn format_duration(seconds: u64) -> (r: String)
        ensures
            r@ == spec_format_duration(seconds as nat),
    {
        let days = seconds / 86400;
        let hours = (seconds % 86400) / 3600;
        let minutes = (seconds % 3600) / 60;
        if days > 0 {
            let r = u64_to_decimal(days).concat("天").concat(
                u64_to_decimal(hours).as_str(),
            ).concat("小时");
            proof {
                assert(r@ =~= spec_format_duration(seconds as nat));
            }
            r
        } else if hours > 0 {
            let r = u64_to_decimal(hours).concat("小时").concat(
                u64_to_decimal(minutes).as_str(),
            ).concat("分钟");
            proof {
                assert(r@ =~= spec_format_duration(seconds as nat));
            }
            r
        } else {
            let r = u64_to_decimal(minutes).concat("分钟");
            proof {
                assert(r@ =~= spec_format_duration(seconds as nat));
            }
            r
        }
    }

    /// Renders how long ago the instant `then_ts` lies from the clock
    /// reading `now_ts`, both in unix seconds; anything under a minute
    /// ago, including the future, reads as "just now".
    pub fn relative_time(now_ts: i64, then_ts: i64) -> (r: String)
        requires
            i64::MIN <= now_ts - then_ts <= i64::MAX,
        ensures
            r@ == spec_relative_time(now_ts - then_ts),
    {
        let diff = now_ts - then_ts;
        if diff >= 86400 {
            let r = u64_to_decimal((diff / 86400) as u64).concat("天前");
            proof {
                assert(diff / 86400 == (diff as int) / 86400);
                assert(r@ =~= spec_relative_time(now_ts - then_ts));
            }
            r
        } else if diff >= 3600 {
            let r = u64_to_decimal((diff / 3600) as u64).concat("小时前");
            proof {
                assert(diff / 3600 == (diff as int) / 3600);
                assert(r@ =~= spec_relative_time(now_ts - then_ts));
            }
            r
        } else if diff >= 60 {
            let r = u64_to_decimal((diff / 60) as u64).concat("分钟前");
            proof {
                assert(diff / 60 == (diff as int) / 60);
                assert(r@ =~= spec_relative_time(now_ts - then_ts));
            }
            r
        } else {
            String::from_str("刚刚")
        }
    }
}

} // verus!

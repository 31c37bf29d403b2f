//! The daily window model over Unix seconds.
//!
//! `next_start_unix` and `next_end_unix` give the next UTC instant
//! whose wall-clock hour is the configured hour with minute and second
//! zero; `in_window` tests whether the window is currently open by
//! comparing the two upcoming instants, which handles midnight-crossing
//! windows without case analysis.

use crate::config::BotConfig;
use vstd::arithmetic::div_mod::lemma_fundamental_div_mod;
use vstd::prelude::*;

verus! {

pub const SECS_PER_DAY: u64 = 86400;

pub const SECS_PER_HOUR: u64 = 3600;

/// Clocks the model accepts: far enough from the top of `u64` that
/// adding two days cannot overflow.
pub open spec fn clock_in_range(now: u64) -> bool {
    now + 2 * SECS_PER_DAY <= u64::MAX
}

/// The next instant strictly after `now` whose wall-clock time of day
/// is `hour`:00:00 UTC; `hour == 24` names the following midnight.
pub open spec fn spec_next_occurrence(now: int, hour: int) -> int {
    let candidate = (now / (SECS_PER_DAY as int)) * (SECS_PER_DAY as int) + hour * (
    SECS_PER_HOUR as int);
    if candidate > now {
        candidate
    } else {
        candidate + SECS_PER_DAY as int
    }
}

pub open spec fn spec_next_start(cfg: BotConfig, now: int) -> int {
    spec_next_occurrence(now, cfg.start as int)
}

pub open spec fn spec_next_end(cfg: BotConfig, now: int) -> int {
    spec_next_occurrence(now, cfg.end as int)
}

/// The window is open iff the upcoming end precedes the upcoming start.
pub open spec fn spec_in_window(cfg: BotConfig, now: int) -> bool {
    spec_next_start(cfg, now) > spec_next_end(cfg, now)
}

fn next_occurrence(now: u64, hour: u64) -> (r: u64)
    requires
        hour <= 24,
        clock_in_range(now),
    ensures
        r == spec_next_occurrence(now as int, hour as int),
{
    proof {
        lemma_fundamental_div_mod(now as int, SECS_PER_DAY as int);
    }
    let day = now / SECS_PER_DAY * SECS_PER_DAY;
    let candidate = day + hour * SECS_PER_HOUR;
    if candidate > now {
        candidate
    } else {
        candidate + SECS_PER_DAY
    }
}

/// The next UTC instant at which the window opens.
pub fn next_start_unix(cfg: &BotConfig, now: u64) -> (r: u64)
    requires
        cfg.hours_in_range(),
        clock_in_range(now),
    ensures
        r == spec_next_start(*cfg, now as int),
{
    next_occurrence(now, cfg.start)
}

/// The next UTC instant at which the window closes.
pub fn next_end_unix(cfg: &BotConfig, now: u64) -> (r: u64)
    requires
        cfg.hours_in_range(),
        clock_in_range(now),
    ensures
        r == spec_next_end(*cfg, now as int),
{
    next_occurrence(now, cfg.end)
}

/// Whether the daily window is open at `now`.
pub fn in_window(cfg: &BotConfig, now: u64) -> (r: bool)
    requires
        cfg.hours_in_range(),
        clock_in_range(now),
    ensures
        r == spec_in_window(*cfg, now as int),
{
    next_start_unix(cfg, now) > next_end_unix(cfg, now)
}

/// Law: the next occurrence of any hour lies strictly after `now` and
/// at most one day ahead, so `next_start` and `next_end` always land
/// in `(now, now + 24h]`.
pub proof fn lemma_next_occurrence_range(now: int, hour: int)
    requires
        0 <= now,
        0 <= hour <= 24,
    ensures
        now < spec_next_occurrence(now, hour) <= now + SECS_PER_DAY,
{
    lemma_fundamental_div_mod(now, SECS_PER_DAY as int);
}

/// Membership of a time-of-day `r` in the half-open daily interval
/// `[a, b)`, where the interval wraps past midnight when `b <= a`.
pub open spec fn in_daily_interval(r: int, a: int, b: int) -> bool {
    if a < b {
        a <= r < b
    } else {
        r >= a || r < b
    }
}

/// The second of the day at which hour `h` occurs (hour 24 is second 0
/// of the next day).
pub open spec fn hour_second_of_day(h: int) -> int {
    (h * (SECS_PER_HOUR as int)) % (SECS_PER_DAY as int)
}

/// Law: `in_window(now)` holds exactly when `now` lies in the
/// half-open daily interval that starts at the most recent occurrence
/// of `start` and ends at the following occurrence of `end`, wrapping
/// past midnight when `end < start`. Hours 0 and 24 name the same
/// time of day, so a window between them would be degenerate and is
/// left out along with `start == end`.
pub proof fn lemma_window_predicate(cfg: BotConfig, now: int)
    requires
        cfg.wf(),
        0 <= now,
        !(cfg.start == 0 && cfg.end == 24),
        !(cfg.start == 24 && cfg.end == 0),
    ensures
        spec_in_window(cfg, now) <==> in_daily_interval(
            now % (SECS_PER_DAY as int),
            hour_second_of_day(cfg.start as int),
            hour_second_of_day(cfg.end as int),
        ),
{
    lemma_fundamental_div_mod(now, SECS_PER_DAY as int);
    let r = now % (SECS_PER_DAY as int);
    let sa = cfg.start * (SECS_PER_HOUR as int);
    let sb = cfg.end * (SECS_PER_HOUR as int);
    assert(hour_second_of_day(cfg.start as int) == if sa == SECS_PER_DAY as int {
        0int
    } else {
        sa
    }) by {
        if sa < SECS_PER_DAY as int {
            vstd::arithmetic::div_mod::lemma_small_mod(sa as nat, SECS_PER_DAY as nat);
        } else {
            vstd::arithmetic::div_mod::lemma_mod_self_0(SECS_PER_DAY as int);
        }
    };
    assert(hour_second_of_day(cfg.end as int) == if sb == SECS_PER_DAY as int {
        0int
    } else {
        sb
    }) by {
        if sb < SECS_PER_DAY as int {
            vstd::arithmetic::div_mod::lemma_small_mod(sb as nat, SECS_PER_DAY as nat);
        } else {
            vstd::arithmetic::div_mod::lemma_mod_self_0(SECS_PER_DAY as int);
        }
    };
}

} // verus!

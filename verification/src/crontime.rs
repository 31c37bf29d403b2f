//! Cron expression generation for the three periodic triggers.
//!
//! All expressions use the 6-field form `second minute hour day month
//! day-of-week`. The refresh expression fires every minute; notify and
//! end each fire at one fixed time of day. The second offsets (40 for
//! notify, 20 for end) keep those fires off the refresh tick.

use crate::decimal::lemma_decimal_digits;
use crate::decimal::spec_decimal;
use crate::decimal::u64_to_string;
use vstd::prelude::*;
use vstd::string::StringExecFns;

verus! {

/// A six-field cron expression with fixed numeric second, minute and
/// hour and `*` for day, month and day-of-week: it names one time of
/// day, so a scheduler fires it at most once per day.
pub open spec fn spec_cron_daily(sec: nat, min: nat, hour: nat) -> Seq<char> {
    spec_decimal(sec) + " "@ + spec_decimal(min) + " "@ + spec_decimal(hour) + " * * *"@
}

/// The refresh expression: second 0 of every minute.
pub open spec fn spec_cron_update() -> Seq<char> {
    "0 * * * * *"@
}

/// The notify minute: `60 - shift`. For `shift == 0` this is the
/// literal `60`, kept as the surface behaviour of the generator.
pub open spec fn spec_notify_minute(shift: nat) -> nat {
    (60 - shift) as nat
}

/// The notify hour: one hour before `start` when the shift is
/// positive, wrapping at midnight, else `start` itself.
pub open spec fn spec_notify_hour(start: nat, shift: nat) -> nat {
    if shift > 0 {
        if start == 0 {
            23
        } else {
            (start - 1) as nat
        }
    } else {
        start
    }
}

pub open spec fn spec_cron_notify(start: nat, shift: nat) -> Seq<char> {
    spec_cron_daily(40, spec_notify_minute(shift), spec_notify_hour(start, shift))
}

pub open spec fn spec_cron_end(end: nat) -> Seq<char> {
    spec_cron_daily(20, 0, end)
}

/// The three trigger schedules, derived from the window parameters.
pub struct CronTime {
    pub start: u64,
    pub end_: u64,
    pub shift: u64,
}

/// Which of the three parameters was out of range.
#[derive(Debug, Clone, Copy, PartialEq, Eq)]
pub enum CronTimeCreationError {
    Start,
    End,
    Shift,
}

impl CronTime {
    pub open spec fn wf(self) -> bool {
        self.start <= 24 && self.end_ <= 24 && self.shift <= 59
    }

    /// Validates the window parameters: hours in `[0, 24]`, shift in
    /// `[0, 59]`, reporting the first field out of range.
    pub fn new(start: u64, end: u64, shift: u64) -> (r: Result<Self, CronTimeCreationError>)
        ensures
            start > 24 ==> (r matches Err(e) && e is Start),
            start <= 24 && end > 24 ==> (r matches Err(e) && e is End),
            start <= 24 && end <= 24 && shift > 59 ==> (r matches Err(e) && e is Shift),
            start <= 24 && end <= 24 && shift <= 59 ==> (r matches Ok(c) && c == (CronTime {
                start,
                end_: end,
                shift,
            }) && c.wf()),
    {
        if start > 24 {
            return Err(CronTimeCreationError::Start);
        };
        if end > 24 {
            return Err(CronTimeCreationError::End);
        };
        if shift > 59 {
            return Err(CronTimeCreationError::Shift);
        };
        Ok(CronTime { start, shift, end_: end })
    }

    /// The notify schedule: second 40, minute `60 - shift`, one hour
    /// before `start` (wrapping at midnight) when the shift is
    /// positive, at `start` itself when it is zero.
    pub fn notify(&self) -> (r: String)
        requires
            self.wf(),
        ensures
            r@ == spec_cron_notify(self.start as nat, self.shift as nat),
    {
        let notify_minutes: u64 = 60 - self.shift;
        let notify_hour: u64 = if self.shift > 0 {
            if self.start == 0 {
                23
            } else {
                self.start - 1
            }
        } else {
            self.start
        };
        let mut s = u64_to_string(40);
        s.append(" ");
        s.append(u64_to_string(notify_minutes).as_str());
        s.append(" ");
        s.append(u64_to_string(notify_hour).as_str());
        s.append(" * * *");
        proof {
            assert(s@ =~= spec_cron_notify(self.start as nat, self.shift as nat));
        }
        s
    }

    /// The refresh schedule: every minute at second 0.
    pub fn update(&self) -> (r: String)
        ensures
            r@ == spec_cron_update(),
    {
        "0 * * * * *".to_owned()
    }

    /// The end schedule: second 20, minute 0 of the end hour.
    pub fn end(&self) -> (r: String)
        requires
            self.wf(),
        ensures
            r@ == spec_cron_end(self.end_ as nat),
    {
        let mut s = u64_to_string(20);
        s.append(" ");
        s.append(u64_to_string(0).as_str());
        s.append(" ");
        s.append(u64_to_string(self.end_).as_str());
        s.append(" * * *");
        proof {
            assert(s@ =~= spec_cron_end(self.end_ as nat));
        }
        s
    }
}

/// No space occurs in the field, so a space-splitting parser reads
/// it whole.
pub open spec fn space_free(f: Seq<char>) -> bool {
    forall|i: int| 0 <= i < f.len() ==> #[trigger] f[i] != ' '
}

/// The string is exactly the six nonempty space-free fields joined
/// by single spaces: what a 6-field cron parser splits it into.
pub open spec fn sixfield_split(
    s: Seq<char>,
    f0: Seq<char>,
    f1: Seq<char>,
    f2: Seq<char>,
    f3: Seq<char>,
    f4: Seq<char>,
    f5: Seq<char>,
) -> bool {
    &&& s == f0 + seq![' '] + f1 + seq![' '] + f2 + seq![' '] + f3 + seq![' '] + f4 + seq![' ']
        + f5
    &&& f0.len() > 0 && space_free(f0)
    &&& f1.len() > 0 && space_free(f1)
    &&& f2.len() > 0 && space_free(f2)
    &&& f3.len() > 0 && space_free(f3)
    &&& f4.len() > 0 && space_free(f4)
    &&& f5.len() > 0 && space_free(f5)
}

/// A once-a-day cron expression: six space-separated fields, the
/// second, minute and hour fields decimal numbers valued at most 59,
/// 59 and 23, and `*` for day, month and day-of-week. Any standard
/// 6-field cron parser accepts such a string, and it names one fixed
/// time of day.
pub open spec fn is_once_daily_cron(s: Seq<char>) -> bool {
    exists|sec: nat, min: nat, hour: nat|
        {
            &&& #[trigger] sixfield_split(
                s,
                spec_decimal(sec),
                spec_decimal(min),
                spec_decimal(hour),
                seq!['*'],
                seq!['*'],
                seq!['*'],
            )
            &&& sec <= 59
            &&& min <= 59
            &&& hour <= 23
        }
}

/// Any expression the daily builder produces splits into its three
/// decimal fields and the three `*` fields.
proof fn lemma_cron_daily_sixfields(sec: nat, min: nat, hour: nat)
    ensures
        sixfield_split(
            spec_cron_daily(sec, min, hour),
            spec_decimal(sec),
            spec_decimal(min),
            spec_decimal(hour),
            seq!['*'],
            seq!['*'],
            seq!['*'],
        ),
{
    lemma_decimal_digits(sec);
    lemma_decimal_digits(min);
    lemma_decimal_digits(hour);
    reveal_strlit(" ");
    reveal_strlit(" * * *");
    assert(spec_cron_daily(sec, min, hour) =~= spec_decimal(sec) + seq![' '] + spec_decimal(min)
        + seq![' '] + spec_decimal(hour) + seq![' '] + seq!['*'] + seq![' '] + seq!['*']
        + seq![' '] + seq!['*']);
}

/// Law: cron well-formedness. For every configuration with a positive
/// notify shift and an end hour below 24, the notify and end
/// expressions are once-a-day cron expressions with all fields in
/// range, and the refresh expression splits into a second field of 0
/// and `*` everywhere else, so it fires once per minute. A zero
/// shift produces the minute literal `60` and an end hour of 24
/// produces an hour field of 24, which a strict parser rejects;
/// those inputs are left out here.
pub proof fn lemma_cron_well_formed(start: nat, end: nat, shift: nat)
    requires
        start <= 24,
        end <= 23,
        1 <= shift <= 59,
    ensures
        is_once_daily_cron(spec_cron_notify(start, shift)),
        is_once_daily_cron(spec_cron_end(end)),
        sixfield_split(
            spec_cron_update(),
            seq!['0'],
            seq!['*'],
            seq!['*'],
            seq!['*'],
            seq!['*'],
            seq!['*'],
        ),
{
    assert(spec_notify_minute(shift) <= 59 && spec_notify_hour(start, shift) <= 23);
    lemma_cron_daily_sixfields(40, spec_notify_minute(shift), spec_notify_hour(start, shift));
    lemma_cron_daily_sixfields(20, 0, end);
    assert(sixfield_split(
        spec_cron_update(),
        seq!['0'],
        seq!['*'],
        seq!['*'],
        seq!['*'],
        seq!['*'],
        seq!['*'],
    )) by {
        reveal_strlit("0 * * * * *");
        assert(spec_cron_update() =~= seq!['0'] + seq![' '] + seq!['*'] + seq![' '] + seq!['*']
            + seq![' '] + seq!['*'] + seq![' '] + seq!['*'] + seq![' '] + seq!['*']);
    };
}

} // verus!

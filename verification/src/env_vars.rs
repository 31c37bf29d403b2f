//! Startup configuration: the six required environment values and
//! their validation.
//!
//! Reading the process environment is the program's business; the
//! library validates the raw values, reporting per variable whether
//! it was missing or unparseable.

use crate::config::BotConfig;
use crate::decimal::parse_u64;
use crate::decimal::spec_parse_u64;
use vstd::prelude::*;

verus! {

/// The six configuration values, parsed.
#[derive(Debug)]
pub struct EnvVars {
    pub token: String,
    pub channel_id: u64,
    pub role_id: u64,
    pub start_hour: u64,
    pub end_hour: u64,
    pub notify_shift: u64,
}

/// Which variable failed, and whether it was missing or unparseable.
#[derive(Debug, Clone, Copy, PartialEq, Eq)]
pub enum EnvVarsLoadingError {
    Token,
    ChannelId,
    ChannelIdParsing,
    RoleId,
    RoleIdParsing,
    StartHour,
    StartHourParsing,
    EndHour,
    EndHourParsing,
    TimeShift,
    TimeShiftParsing,
}

impl EnvVars {
    pub fn to_bot_config(&self) -> (c: BotConfig)
        ensures
            c == (BotConfig {
                role_id: self.role_id,
                start: self.start_hour,
                end: self.end_hour,
                notify_shift: self.notify_shift,
                channel_id: self.channel_id,
            }),
    {
        BotConfig {
            channel_id: self.channel_id,
            role_id: self.role_id,
            start: self.start_hour,
            end: self.end_hour,
            notify_shift: self.notify_shift,
        }
    }

    /// Validates the raw environment values, `None` standing for a
    /// variable that was not set. Variables are checked in a fixed
    /// order — token, role, channel, start hour, end hour, shift —
    /// and the first missing or unparseable one is reported.
    pub fn from_values(
        token: Option<String>,
        role_id: Option<String>,
        channel_id: Option<String>,
        start_hour: Option<String>,
        end_hour: Option<String>,
        notify_shift: Option<String>,
    ) -> (r: Result<EnvVars, EnvVarsLoadingError>)
        ensures
            token is None <==> (r matches Err(e) && e is Token),
            token is Some && role_id is None <==> (r matches Err(e) && e is RoleId),
            (token is Some && unparseable(role_id)) <==> (r matches Err(e)
                && e is RoleIdParsing),
            (token is Some && parses(role_id) && channel_id is None) <==> (r matches Err(e)
                && e is ChannelId),
            (token is Some && parses(role_id) && unparseable(channel_id)) <==> (r matches Err(e)
                && e is ChannelIdParsing),
            (token is Some && parses(role_id) && parses(channel_id) && start_hour is None) <==> (
            r matches Err(e) && e is StartHour),
            (token is Some && parses(role_id) && parses(channel_id) && unparseable(start_hour))
                <==> (r matches Err(e) && e is StartHourParsing),
            (token is Some && parses(role_id) && parses(channel_id) && parses(start_hour)
                && end_hour is None) <==> (r matches Err(e) && e is EndHour),
            (token is Some && parses(role_id) && parses(channel_id) && parses(start_hour)
                && unparseable(end_hour)) <==> (r matches Err(e) && e is EndHourParsing),
            (token is Some && parses(role_id) && parses(channel_id) && parses(start_hour) && parses(
                end_hour,
            ) && notify_shift is None) <==> (r matches Err(e) && e is TimeShift),
            (token is Some && parses(role_id) && parses(channel_id) && parses(start_hour) && parses(
                end_hour,
            ) && unparseable(notify_shift)) <==> (r matches Err(e) && e is TimeShiftParsing),
            r is Ok <==> token is Some && parses(role_id) && parses(channel_id) && parses(
                start_hour,
            ) && parses(end_hour) && parses(notify_shift),
            r matches Ok(v) ==> {
                &&& token matches Some(t) && v.token == t
                &&& role_id matches Some(s) && Some(v.role_id) == spec_parse_u64(s@)
                &&& channel_id matches Some(s) && Some(v.channel_id) == spec_parse_u64(s@)
                &&& start_hour matches Some(s) && Some(v.start_hour) == spec_parse_u64(s@)
                &&& end_hour matches Some(s) && Some(v.end_hour) == spec_parse_u64(s@)
                &&& notify_shift matches Some(s) && Some(v.notify_shift) == spec_parse_u64(s@)
            },
    {
        let token: String = match token {
            None => {
                return Err(EnvVarsLoadingError::Token);
            },
            Some(val) => val,
        };
        let role_id: u64 = match role_id {
            None => {
                return Err(EnvVarsLoadingError::RoleId);
            },
            Some(val) => match parse_u64(val.as_str()) {
                None => {
                    return Err(EnvVarsLoadingError::RoleIdParsing);
                },
                Some(v) => v,
            },
        };
        let channel_id: u64 = match channel_id {
            None => {
                return Err(EnvVarsLoadingError::ChannelId);
            },
            Some(val) => match parse_u64(val.as_str()) {
                None => {
                    return Err(EnvVarsLoadingError::ChannelIdParsing);
                },
                Some(v) => v,
            },
        };
        let start_hour: u64 = match start_hour {
            None => {
                return Err(EnvVarsLoadingError::StartHour);
            },
            Some(val) => match parse_u64(val.as_str()) {
                None => {
                    return Err(EnvVarsLoadingError::StartHourParsing);
                },
                Some(v) => v,
            },
        };
        let end_hour: u64 = match end_hour {
            None => {
                return Err(EnvVarsLoadingError::EndHour);
            },
            Some(val) => match parse_u64(val.as_str()) {
                None => {
                    return Err(EnvVarsLoadingError::EndHourParsing);
                },
                Some(v) => v,
            },
        };
        let notify_shift: u64 = match notify_shift {
            None => {
                return Err(EnvVarsLoadingError::TimeShift);
            },
            Some(val) => match parse_u64(val.as_str()) {
                None => {
                    return Err(EnvVarsLoadingError::TimeShiftParsing);
                },
                Some(v) => v,
            },
        };
        Ok(EnvVars { token, channel_id, role_id, start_hour, end_hour, notify_shift })
    }
}

/// The value is present and parses as a decimal `u64`.
pub open spec fn parses(v: Option<String>) -> bool {
    v matches Some(s) && spec_parse_u64(s@) is Some
}

/// The value is present but does not parse as a decimal `u64`.
pub open spec fn unparseable(v: Option<String>) -> bool {
    v matches Some(s) && spec_parse_u64(s@) is None
}

} // verus!

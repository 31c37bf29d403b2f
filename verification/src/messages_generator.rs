//! The message renderer: the three bodies the bot ever posts.
//!
//! Rendering is pure over (configuration, now); reading the clock and
//! delivering text are the callers' business. Timestamps are embedded
//! as the platform's `<t:SECONDS:STYLE>` tokens and the role mention
//! uses the platform's canonical `<@&ID>` form.

use crate::config::BotConfig;
use crate::decimal::spec_decimal;
use crate::decimal::u64_to_string;
use crate::window::clock_in_range;
use crate::window::in_window;
use crate::window::next_end_unix;
use crate::window::next_start_unix;
use crate::window::spec_in_window;
use crate::window::spec_next_end;
use crate::window::spec_next_start;
use vstd::prelude::*;
use vstd::string::StringExecFns;

verus! {

/// The countdown body shown while the window is open.
pub open spec fn spec_during_event(cfg: BotConfig, now: int) -> Seq<char> {
    let e = spec_next_end(cfg, now) as nat;
    "Happy Hour ends <t:"@ + spec_decimal(e) + ":R> at <t:"@ + spec_decimal(e) + ":t>"@
}

/// The countdown body shown before the window opens.
pub open spec fn spec_before_event(cfg: BotConfig, now: int) -> Seq<char> {
    let s = spec_next_start(cfg, now) as nat;
    "Happy Hour starts <t:"@ + spec_decimal(s) + ":R> at <t:"@ + spec_decimal(s) + ":t>"@
}

/// The announcement body: the canonical role mention, then the text.
pub open spec fn spec_notify_msg(role_id: u64) -> Seq<char> {
    "<@&"@ + spec_decimal(role_id as nat) + "> Happy Hour!"@
}

/// The info body: the during-event countdown while the window is
/// open, the before-event countdown otherwise.
pub open spec fn spec_info(cfg: BotConfig, now: int) -> Seq<char> {
    if spec_in_window(cfg, now) {
        spec_during_event(cfg, now)
    } else {
        spec_before_event(cfg, now)
    }
}

/// Renders the three message bodies from the shared configuration.
pub struct MessageManager {
    pub config: BotConfig,
}

impl MessageManager {
    pub fn new(config: BotConfig) -> (m: MessageManager)
        ensures
            m.config == config,
    {
        MessageManager { config }
    }

    /// "Happy Hour ends ..." with the next end instant.
    pub fn during_event_str(&self, now: u64) -> (r: String)
        requires
            self.config.hours_in_range(),
            clock_in_range(now),
        ensures
            r@ == spec_during_event(self.config, now as int),
    {
        let e = next_end_unix(&self.config, now);
        let mut s = "Happy Hour ends <t:".to_owned();
        s.append(u64_to_string(e).as_str());
        s.append(":R> at <t:");
        s.append(u64_to_string(e).as_str());
        s.append(":t>");
        proof {
            assert(s@ =~= spec_during_event(self.config, now as int));
        }
        s
    }

    /// "Happy Hour starts ..." with the next start instant.
    pub fn before_event_str(&self, now: u64) -> (r: String)
        requires
            self.config.hours_in_range(),
            clock_in_range(now),
        ensures
            r@ == spec_before_event(self.config, now as int),
    {
        let st = next_start_unix(&self.config, now);
        let mut s = "Happy Hour starts <t:".to_owned();
        s.append(u64_to_string(st).as_str());
        s.append(":R> at <t:");
        s.append(u64_to_string(st).as_str());
        s.append(":t>");
        proof {
            assert(s@ =~= spec_before_event(self.config, now as int));
        }
        s
    }

    /// The role-mention announcement body.
    pub fn notify_str(&self) -> (r: String)
        ensures
            r@ == spec_notify_msg(self.config.role_id),
    {
        let mut s = "<@&".to_owned();
        s.append(u64_to_string(self.config.role_id).as_str());
        s.append("> Happy Hour!");
        proof {
            assert(s@ =~= spec_notify_msg(self.config.role_id));
        }
        s
    }

    /// The info body for `now`.
    pub fn info_str(&self, now: u64) -> (r: String)
        requires
            self.config.hours_in_range(),
            clock_in_range(now),
        ensures
            r@ == spec_info(self.config, now as int),
    {
        if in_window(&self.config, now) {
            self.during_event_str(now)
        } else {
            self.before_event_str(now)
        }
    }
}

} // verus!

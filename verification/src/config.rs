//! The immutable bot configuration shared by all components.

use vstd::prelude::*;

verus! {

/// Configuration loaded once at startup: the target channel, the role
/// that the notify message mentions, and the daily window parameters.
///
/// `start` and `end` are wall-clock UTC hours in `[0, 24]`; the window
/// may cross midnight (`end < start` is allowed). `notify_shift` is how
/// many minutes before `start` the notify message is posted, in
/// `[0, 59]`.
#[derive(Clone, Copy)]
pub struct BotConfig {
    pub role_id: u64,
    pub start: u64,
    pub end: u64,
    pub notify_shift: u64,
    pub channel_id: u64,
}

impl BotConfig {
    /// The three integer window parameters are within their ranges.
    pub open spec fn hours_in_range(self) -> bool {
        self.start <= 24 && self.end <= 24 && self.notify_shift <= 59
    }

    /// A well-formed configuration: ranges hold and the window is not
    /// degenerate (`start != end`).
    pub open spec fn wf(self) -> bool {
        self.hours_in_range() && self.start != self.end
    }
}

} // verus!

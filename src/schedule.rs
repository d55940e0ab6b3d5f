//! When the periodic work of the bot falls due, on a clock in milliseconds
//! that the caller reads.

use vstd::prelude::*;

verus! {

/// Time between two trade actions, so that each sees the effect of the last.
pub const TRADE_ACTION_DELAY_MS: u64 = 300;

/// Time between two announcements.
pub const ANNOUNCEMENT_DELAY_MS: u64 = 2_700_000;

/// More than `delay` has passed from `since` to `now`.
pub open spec fn elapsed_beyond(since: u64, now: u64, delay: u64) -> bool {
    now as int - since as int > delay as int
}

/// The times of the last trade action and of the last announcement.
pub struct Schedule {
    pub last_trade_action: u64,
    pub last_announcement: u64,
}

impl Schedule {
    /// A schedule that starts counting at `now`.
    pub fn new(now: u64) -> (r: Schedule)
        ensures
            r.last_trade_action == now,
            r.last_announcement == now,
    {
        Schedule { last_trade_action: now, last_announcement: now }
    }

    /// Whether a trade action is due at `now`.
    pub fn trade_action_due(&self, now: u64) -> (r: bool)
        ensures
            r == elapsed_beyond(self.last_trade_action, now, TRADE_ACTION_DELAY_MS),
    {
        now > self.last_trade_action && now - self.last_trade_action > TRADE_ACTION_DELAY_MS
    }

    /// Whether an announcement is due at `now`.
    pub fn announcement_due(&self, now: u64) -> (r: bool)
        ensures
            r == elapsed_beyond(self.last_announcement, now, ANNOUNCEMENT_DELAY_MS),
    {
        now > self.last_announcement && now - self.last_announcement > ANNOUNCEMENT_DELAY_MS
    }

    /// Records a trade action at `now`.
    pub fn trade_action_done(&mut self, now: u64)
        ensures
            final(self).last_trade_action == now,
            final(self).last_announcement == old(self).last_announcement,
    {
        self.last_trade_action = now;
    }

    /// Records an announcement at `now`.
    pub fn announcement_done(&mut self, now: u64)
        ensures
            final(self).last_announcement == now,
            final(self).last_trade_action == old(self).last_trade_action,
    {
        self.last_announcement = now;
    }
}

} // verus!

//! Per-tick decisions of the scheduling loop: which path a tick takes and
//! how long the loop sleeps before it.

use vstd::prelude::*;
use vstd::set_lib::{lemma_int_range, set_int_range};

verus! {

/// The rolls that dispatch draws from: `0..ROLL_RANGE`.
pub const ROLL_RANGE: u32 = 100;

/// What a tick does.
#[derive(Debug, Clone, Copy, PartialEq, Eq, Structural)]
pub enum Action {
    /// Generate and publish a new post.
    Post,
    /// Fetch mentions and reply to one of them.
    Engage,
}

/// The knobs of the scheduling loop.
#[derive(Debug, Clone, Copy, PartialEq, Eq, Structural)]
pub struct ScheduleConfig {
    /// Rolls below this (out of `ROLL_RANGE`) post; the rest engage.
    pub post_weight: u32,
    /// How many mentions one engage step fetches at most.
    pub mention_limit: u32,
    /// The sleep before a tick lasts from this many minutes ...
    pub min_sleep_minutes: u64,
    /// ... up to, not including, this many.
    pub max_sleep_minutes: u64,
}

impl Default for ScheduleConfig {
    fn default() -> (c: ScheduleConfig)
        ensures
            c.post_weight == 79,
            c.mention_limit == 5,
            c.min_sleep_minutes == 10,
            c.max_sleep_minutes == 11,
    {
        ScheduleConfig { post_weight: 79, mention_limit: 5, min_sleep_minutes: 10, max_sleep_minutes: 11 }
    }
}

/// The action that a roll selects under a post weight.
pub open spec fn action_for(roll: int, post_weight: int) -> Action {
    if roll < post_weight {
        Action::Post
    } else {
        Action::Engage
    }
}

/// The action that a roll selects: rolls below the post weight post, the
/// others engage.
pub fn choose_action(roll: u32, post_weight: u32) -> (a: Action)
    ensures
        a == action_for(roll as int, post_weight as int),
{
    if roll < post_weight {
        Action::Post
    } else {
        Action::Engage
    }
}

/// Out of the `ROLL_RANGE` equally likely rolls, exactly `post_weight`
/// select posting and the rest select engaging, so the share of post ticks
/// is the configured weight.
pub proof fn lemma_dispatch_split(post_weight: int)
    requires
        0 <= post_weight <= ROLL_RANGE,
    ensures
        Set::new(|r: int| 0 <= r < ROLL_RANGE && action_for(r, post_weight) == Action::Post).len()
            == post_weight,
        Set::new(|r: int| 0 <= r < ROLL_RANGE && action_for(r, post_weight) == Action::Engage).len()
            == ROLL_RANGE - post_weight,
{
    let posts = Set::new(|r: int| 0 <= r < ROLL_RANGE && action_for(r, post_weight) == Action::Post);
    let engages = Set::new(|r: int| 0 <= r < ROLL_RANGE && action_for(r, post_weight) == Action::Engage);
    assert(posts =~= set_int_range(0, post_weight));
    assert(engages =~= set_int_range(post_weight, ROLL_RANGE as int));
    lemma_int_range(0, post_weight);
    lemma_int_range(post_weight, ROLL_RANGE as int);
}

impl ScheduleConfig {
    /// Seconds to sleep before a tick, from a random draw: whole minutes in
    /// the configured window.
    pub fn sleep_seconds(&self, draw: u64) -> (secs: u64)
        requires
            self.min_sleep_minutes < self.max_sleep_minutes,
            self.max_sleep_minutes <= u64::MAX / 60,
        ensures
            secs as int == (self.min_sleep_minutes as int + draw as int % (self.max_sleep_minutes as int - self.min_sleep_minutes as int)) * 60,
            self.min_sleep_minutes * 60 <= secs < self.max_sleep_minutes * 60,
    {
        let span = self.max_sleep_minutes - self.min_sleep_minutes;
        let minutes = self.min_sleep_minutes + draw % span;
        assert(minutes < self.max_sleep_minutes);
        assert(minutes * 60 < self.max_sleep_minutes * 60) by (nonlinear_arith)
            requires minutes < self.max_sleep_minutes;
        assert(self.min_sleep_minutes * 60 <= minutes * 60) by (nonlinear_arith)
            requires self.min_sleep_minutes <= minutes;
        minutes * 60
    }
}

} // verus!

//! How often the settings are drawn anew.
//!
//! Terminals and tasks change far more often than the settings need to be drawn. Changes are
//! collected, and drawn together after a while.

use vstd::prelude::*;

verus! {

/// How long, in milliseconds, the settings are not drawn again.
pub const SETTINGS_CONTENT_REFRESH_MIN_INTERVAL: u64 = 250;

/// What is known of when the settings were drawn. Times are in milliseconds.
#[derive(Clone, Copy, Debug, PartialEq, Eq, Structural)]
pub struct SettingsRefresh {
    pub last_refresh: Option<u64>,
    pub refresh_pending: bool,
    pub refresh_generation: u64,
}

/// What is to be done about a change.
#[derive(Clone, Copy, Debug, PartialEq, Eq, Structural)]
pub enum RefreshStep {
    /// Draw now.
    Refresh,
    /// Draw after some milliseconds, and hand this generation back then.
    Wait { delay: u64, generation: u64 },
    /// A drawing to come will show the change.
    Nothing,
}

/// The number of the drawing after this one.
pub open spec fn following(generation: u64) -> u64 {
    if generation == u64::MAX {
        0
    } else {
        (generation + 1) as u64
    }
}

/// The settings were drawn.
pub open spec fn drawn(state: SettingsRefresh, now: u64) -> SettingsRefresh {
    SettingsRefresh {
        last_refresh: Some(now),
        refresh_pending: false,
        refresh_generation: following(state.refresh_generation),
    }
}

/// How long ago the settings were drawn. A clock that went back counts as no time.
pub open spec fn elapsed(now: u64, last: u64) -> int {
    if now > last {
        now - last
    } else {
        0
    }
}

/// What is to be done about a change. Another page is shown at once.
pub open spec fn step_for(state: SettingsRefresh, section_changed: bool, now: u64) -> RefreshStep {
    if section_changed || state.last_refresh is None {
        RefreshStep::Refresh
    } else if state.refresh_pending {
        RefreshStep::Nothing
    } else if elapsed(now, state.last_refresh->0) >= SETTINGS_CONTENT_REFRESH_MIN_INTERVAL {
        RefreshStep::Refresh
    } else {
        RefreshStep::Wait {
            delay: (SETTINGS_CONTENT_REFRESH_MIN_INTERVAL - elapsed(
                now,
                state.last_refresh->0,
            )) as u64,
            generation: state.refresh_generation,
        }
    }
}

/// What a step makes of what is known.
pub open spec fn after_step(state: SettingsRefresh, step: RefreshStep, now: u64) -> SettingsRefresh {
    match step {
        RefreshStep::Refresh => drawn(state, now),
        RefreshStep::Wait { .. } => SettingsRefresh { refresh_pending: true, ..state },
        RefreshStep::Nothing => state,
    }
}

impl SettingsRefresh {
    /// The settings were never drawn.
    pub fn new() -> (r: Self)
        ensures
            r == (SettingsRefresh {
                last_refresh: None,
                refresh_pending: false,
                refresh_generation: 0,
            }),
    {
        SettingsRefresh { last_refresh: None, refresh_pending: false, refresh_generation: 0 }
    }

    /// Takes in that the settings were drawn.
    pub fn refresh_snapshot(&mut self, now: u64)
        ensures
            *final(self) == drawn(*old(self), now),
    {
        self.last_refresh = Some(now);
        self.refresh_pending = false;
        self.refresh_generation = if self.refresh_generation == u64::MAX {
            0
        } else {
            self.refresh_generation + 1
        };
    }

    /// Takes in that something changed.
    pub fn request_refresh(&mut self, section_changed: bool, now: u64) -> (r: RefreshStep)
        ensures
            r == step_for(*old(self), section_changed, now),
            *final(self) == after_step(*old(self), r, now),
    {
        let last: u64 = match self.last_refresh {
            Some(last) => last,
            None => {
                self.refresh_snapshot(now);
                return RefreshStep::Refresh;
            },
        };
        if section_changed {
            self.refresh_snapshot(now);
            return RefreshStep::Refresh;
        }
        if self.refresh_pending {
            return RefreshStep::Nothing;
        }
        let passed: u64 = if now > last {
            now - last
        } else {
            0
        };
        if passed >= SETTINGS_CONTENT_REFRESH_MIN_INTERVAL {
            self.refresh_snapshot(now);
            return RefreshStep::Refresh;
        }
        self.refresh_pending = true;
        RefreshStep::Wait {
            delay: SETTINGS_CONTENT_REFRESH_MIN_INTERVAL - passed,
            generation: self.refresh_generation,
        }
    }

    /// Takes in that a wait is over. Says whether to draw now.
    pub fn wait_is_over(&mut self, generation: u64, now: u64) -> (r: bool)
        ensures
            r == (old(self).refresh_pending && old(self).refresh_generation == generation),
            *final(self) == if r {
                drawn(*old(self), now)
            } else {
                *old(self)
            },
    {
        if self.refresh_pending && self.refresh_generation == generation {
            self.refresh_snapshot(now);
            true
        } else {
            false
        }
    }
}

/// No change is lost: after each one the settings have just been drawn, or will be.
pub proof fn changes_are_shown(state: SettingsRefresh, section_changed: bool, now: u64)
    ensures
        ({
            let step = step_for(state, section_changed, now);
            let after = after_step(state, step, now);
            &&& after.refresh_pending || after.last_refresh == Some(now)
            &&& step matches RefreshStep::Wait { delay, generation } ==> generation
                == after.refresh_generation && 0 < delay <= SETTINGS_CONTENT_REFRESH_MIN_INTERVAL
            &&& step is Nothing ==> state.refresh_pending
        }),
{
}

/// While a wait runs, no second one begins and nothing is drawn, as long as the page stays.
pub proof fn waits_do_not_pile_up(state: SettingsRefresh, now: u64)
    requires
        state.refresh_pending,
        state.last_refresh is Some,
    ensures
        step_for(state, false, now) is Nothing,
{
}

/// A wait that was overtaken by a drawing draws nothing when it is over.
pub proof fn overtaken_waits_draw_nothing(state: SettingsRefresh, generation: u64, now: u64)
    requires
        generation == state.refresh_generation,
    ensures
        drawn(state, now).refresh_generation != generation,
        !drawn(state, now).refresh_pending,
{
}

} // verus!

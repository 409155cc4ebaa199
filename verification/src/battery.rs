//! Battery-aware power management.

use vstd::prelude::*;
use crate::common::BatteryState;

verus! {

/// Errors of battery monitoring.
#[derive(Debug)]
pub enum BatteryError {
    /// Battery monitoring is not available on this platform.
    NotAvailable(String),
}

/// Power profile that the platform adapts its behaviour to.
#[derive(Debug, Clone, Copy, PartialEq, Eq, Structural)]
pub enum PowerProfile {
    /// Full performance, no restrictions.
    Performance,
    /// Balanced power usage.
    Balanced,
    /// Aggressive power saving.
    PowerSaver,
    /// Critical battery level, minimal operations.
    Critical,
}

/// The power profile that a battery state calls for: performance while
/// charging; critical in saver mode or below 10 %; power saving below
/// 20 %; balanced below 50 %; performance otherwise.
pub open spec fn profile_for(state: BatteryState) -> PowerProfile {
    if state.is_charging {
        PowerProfile::Performance
    } else if state.is_saver_mode || state.level_percent < 10 {
        PowerProfile::Critical
    } else if state.level_percent < 20 {
        PowerProfile::PowerSaver
    } else if state.level_percent < 50 {
        PowerProfile::Balanced
    } else {
        PowerProfile::Performance
    }
}

/// Tracks the device's battery state and the power profile derived from it.
#[derive(Debug)]
pub struct BatteryMonitor {
    state: BatteryState,
    profile: PowerProfile,
}

impl BatteryMonitor {
    /// The battery state last reported.
    pub closed spec fn spec_state(&self) -> BatteryState {
        self.state
    }

    /// The active power profile.
    pub closed spec fn spec_profile(&self) -> PowerProfile {
        self.profile
    }

    /// A monitor with the default battery state and the balanced profile.
    pub fn new() -> (m: Self)
        ensures
            m.spec_state() == (BatteryState { level_percent: 0, is_charging: false, is_saver_mode: false }),
            m.spec_profile() == PowerProfile::Balanced,
    {
        BatteryMonitor { state: BatteryState::default(), profile: PowerProfile::Balanced }
    }

    /// The battery state last reported.
    pub fn state(&self) -> (s: &BatteryState)
        ensures
            *s == self.spec_state(),
    {
        &self.state
    }

    /// Records a new battery state and recomputes the power profile.
    pub fn update_state(&mut self, state: BatteryState)
        ensures
            final(self).spec_state() == state,
            final(self).spec_profile() == profile_for(state),
    {
        self.state = state;
        self.profile = Self::compute_profile(&state);
    }

    /// The active power profile.
    pub fn profile(&self) -> (p: PowerProfile)
        ensures
            p == self.spec_profile(),
    {
        self.profile
    }

    /// The power profile that `state` calls for.
    pub fn compute_profile(state: &BatteryState) -> (p: PowerProfile)
        ensures
            p == profile_for(*state),
    {
        if state.is_charging {
            return PowerProfile::Performance;
        }
        if state.is_saver_mode || state.level_percent < 10 {
            return PowerProfile::Critical;
        }
        if state.level_percent < 20 {
            return PowerProfile::PowerSaver;
        }
        if state.level_percent < 50 {
            return PowerProfile::Balanced;
        }
        PowerProfile::Performance
    }
}

impl Default for BatteryMonitor {
    fn default() -> (m: Self)
        ensures
            m.spec_state() == (BatteryState { level_percent: 0, is_charging: false, is_saver_mode: false }),
            m.spec_profile() == PowerProfile::Balanced,
    {
        Self::new()
    }
}

/// Law: while the device charges, the monitor runs at full performance,
/// whatever the level; otherwise saver mode or a level under 10 % is
/// critical, 10-19 % saves power, 20-49 % is balanced and 50 % or more is
/// full performance.
pub proof fn lemma_profile_after_update(m: BatteryMonitor, state: BatteryState)
    requires
        m.spec_state() == state,
        m.spec_profile() == profile_for(state),
    ensures
        state.is_charging ==> m.spec_profile() == PowerProfile::Performance,
        !state.is_charging && state.level_percent < 10 ==> m.spec_profile() == PowerProfile::Critical,
        !state.is_charging && state.level_percent >= 50 && !state.is_saver_mode
            ==> m.spec_profile() == PowerProfile::Performance,
        !state.is_charging && state.is_saver_mode ==> m.spec_profile() == PowerProfile::Critical,
        !state.is_charging && !state.is_saver_mode && 10 <= state.level_percent < 20 ==> m.spec_profile()
            == PowerProfile::PowerSaver,
        !state.is_charging && !state.is_saver_mode && 20 <= state.level_percent < 50 ==> m.spec_profile()
            == PowerProfile::Balanced,
{
}

} // verus!

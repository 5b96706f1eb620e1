//! The live configuration: what the settings form writes and the
//! background tasks read.

use std::sync::atomic::AtomicBool;
use std::sync::atomic::AtomicU64;
use std::sync::atomic::AtomicU8;
use std::sync::atomic::Ordering;
use crate::span::Span;
use crate::span::NANOS_PER_SECOND;
use std::sync::Arc;
use vstd::prelude::*;

verus! {

/// One reading of the live configuration: plain values, taken field by field.
#[derive(Clone, Copy, Debug, PartialEq, Eq, Structural)]
pub struct LiveSettings {
    /// Intensity of the action for a minor event.
    pub minor_intensity: u8,
    /// Intensity of the action for a major event.
    pub major_intensity: u8,
    /// Whole seconds to wait before acting on a major event.
    pub major_event_delay_seconds: u64,
    /// Whether a warning pulse goes out before the primary action.
    pub warning_pulse_enabled: bool,
}

/// The configuration shared between the settings form and the background
/// tasks. Every field is an atomic scalar: a reader never blocks the writer
/// and never sees half of an update to a field.
#[derive(Debug)]
pub struct SyncedSettings {
    life_loss_shock: AtomicU8,
    death_shock: AtomicU8,
    death_shock_delay: AtomicU64,
    enable_warning_vibrate: AtomicBool,
}

impl SyncedSettings {
    /// Shared settings that start out as `initial`.
    pub fn from_settings(initial: LiveSettings) -> Arc<Self> {
        Arc::new(
            SyncedSettings {
                life_loss_shock: AtomicU8::new(initial.minor_intensity),
                death_shock: AtomicU8::new(initial.major_intensity),
                death_shock_delay: AtomicU64::new(initial.major_event_delay_seconds),
                enable_warning_vibrate: AtomicBool::new(initial.warning_pulse_enabled),
            },
        )
    }

    /// The intensity for a minor event, as last stored.
    pub fn life_loss_shock(&self) -> u8 {
        self.life_loss_shock.load(Ordering::Relaxed)
    }

    /// The intensity for a major event, as last stored.
    pub fn death_shock(&self) -> u8 {
        self.death_shock.load(Ordering::Relaxed)
    }

    /// The seconds to wait before acting on a major event, as last stored.
    pub fn death_shock_delay(&self) -> u64 {
        self.death_shock_delay.load(Ordering::Relaxed)
    }

    /// Whether the warning pulse is switched on, as last stored.
    pub fn enable_warning_vibrate(&self) -> bool {
        self.enable_warning_vibrate.load(Ordering::Relaxed)
    }

    /// Stores the intensity for a minor event.
    pub fn set_life_loss_shock(&self, intensity: u8) {
        self.life_loss_shock.store(intensity, Ordering::Relaxed)
    }

    /// Stores the intensity for a major event.
    pub fn set_death_shock(&self, intensity: u8) {
        self.death_shock.store(intensity, Ordering::Relaxed)
    }

    /// Stores the seconds to wait before acting on a major event.
    pub fn set_death_shock_delay(&self, seconds: u64) {
        self.death_shock_delay.store(seconds, Ordering::Relaxed)
    }

    /// Switches the warning pulse on or off.
    pub fn set_enable_warning_vibrate(&self, enabled: bool) {
        self.enable_warning_vibrate.store(enabled, Ordering::Relaxed)
    }

    /// Reads every field once, each by one atomic load.
    pub fn snapshot(&self) -> LiveSettings {
        LiveSettings {
            minor_intensity: self.life_loss_shock(),
            major_intensity: self.death_shock(),
            major_event_delay_seconds: self.death_shock_delay(),
            warning_pulse_enabled: self.enable_warning_vibrate(),
        }
    }
}

/// The whole seconds for which the settings must have been left alone
/// before they are written back.
pub const SAVE_AFTER_SECONDS: u64 = 3;

/// What to do about writing the settings back, at one frame of the form.
#[derive(Clone, Copy, Debug, PartialEq, Eq, Structural)]
pub enum SaveStep {
    /// A setting changed in this frame: the wait starts again from now.
    Restart,
    /// The last change is old enough: write the settings and forget it.
    Save,
    /// Nothing to do.
    Wait,
}

/// What to do at a frame in which a setting changed (`is_dirty`) or none
/// did, where `since_last_change` is the time gone by since the last change
/// that has not been written back, if there is one. Settings are written
/// once that time exceeds the wait, and never in a frame that changes them.
pub open spec fn save_step(is_dirty: bool, since_last_change: Option<Span>) -> SaveStep {
    if is_dirty {
        SaveStep::Restart
    } else if since_last_change matches Some(age) && age.total_nanos() > SAVE_AFTER_SECONDS
        * NANOS_PER_SECOND {
        SaveStep::Save
    } else {
        SaveStep::Wait
    }
}

/// Decides what to do about writing the settings back.
pub fn next_save_step(is_dirty: bool, since_last_change: Option<Span>) -> (r: SaveStep)
    ensures
        r == save_step(is_dirty, since_last_change),
{
    if is_dirty {
        return SaveStep::Restart;
    }
    match since_last_change {
        Some(age) => {
            let nanos: u128 = age.secs as u128 * 1_000_000_000u128 + age.nanos as u128;
            if nanos > 3_000_000_000u128 {
                SaveStep::Save
            } else {
                SaveStep::Wait
            }
        },
        None => SaveStep::Wait,
    }
}

} // verus!

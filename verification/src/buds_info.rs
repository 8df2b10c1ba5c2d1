//! The per-device state record: everything the daemon knows about one
//! connected pair of earbuds.

use vstd::prelude::*;

use crate::messages::{DebugInfo, ExtTapLockStatus};
use crate::model::{Feature, Model};
use crate::properties::{EqualizerType, Placement, TouchpadOption};

verus! {

/// The snapshot of a device that status queries return.
#[derive(Debug, Clone)]
pub struct BudsInfoInner {
    pub address: String,
    pub ready: bool,
    pub batt_left: i8,
    pub batt_right: i8,
    pub batt_case: i8,
    pub placement_left: Placement,
    pub placement_right: Placement,
    pub equalizer_type: EqualizerType,
    pub touchpads_blocked: bool,
    pub noise_reduction: bool,
    pub did_battery_notify: bool,
    pub touchpad_option_left: TouchpadOption,
    pub touchpad_option_right: TouchpadOption,
    pub paused_music_earlier: bool,
    pub debug: DebugInfo,
    pub model: Model,
    pub ambient_sound_enabled: bool,
    pub ambient_sound_volume: u8,
    pub extra_high_ambient_volume: bool,
    pub tab_lock_status: ExtTapLockStatus,
}

/// Field-for-field equality of two snapshots, comparing addresses by their
/// characters.
pub open spec fn same_snapshot(a: BudsInfoInner, b: BudsInfoInner) -> bool {
    &&& a.address@ == b.address@
    &&& a.ready == b.ready
    &&& a.batt_left == b.batt_left
    &&& a.batt_right == b.batt_right
    &&& a.batt_case == b.batt_case
    &&& a.placement_left == b.placement_left
    &&& a.placement_right == b.placement_right
    &&& a.equalizer_type == b.equalizer_type
    &&& a.touchpads_blocked == b.touchpads_blocked
    &&& a.noise_reduction == b.noise_reduction
    &&& a.did_battery_notify == b.did_battery_notify
    &&& a.touchpad_option_left == b.touchpad_option_left
    &&& a.touchpad_option_right == b.touchpad_option_right
    &&& a.paused_music_earlier == b.paused_music_earlier
    &&& a.debug == b.debug
    &&& a.model == b.model
    &&& a.ambient_sound_enabled == b.ambient_sound_enabled
    &&& a.ambient_sound_volume == b.ambient_sound_volume
    &&& a.extra_high_ambient_volume == b.extra_high_ambient_volume
    &&& a.tab_lock_status == b.tab_lock_status
}

/// The live record of one connected device: its snapshot plus the session's
/// transient counters. Timestamps are kept in whole seconds.
#[derive(Debug, Clone)]
pub struct BudsInfo {
    pub inner: BudsInfoInner,
    pub last_debug: u64,
    pub left_tp_hold_count: u8,
    pub right_tp_hold_count: u8,
    pub last_tp_update: u64,
}

impl BudsInfoInner {
    /// Shortcut for the model's capability table.
    pub fn has_feature(&self, feature: Feature) -> (r: bool)
        ensures
            r == self.model.spec_has_feature(feature),
    {
        self.model.has_feature(feature)
    }
}

/// What a freshly created record looks like: nothing known of the device,
/// counters and timestamps reset.
pub open spec fn spec_fresh_record(r: BudsInfo, address: Seq<char>, model: Model, now: u64) -> bool {
    &&& r.inner.address@ == address
    &&& r.inner.model == model
    &&& !r.inner.ready
    &&& r.inner.batt_left == 0 && r.inner.batt_right == 0 && r.inner.batt_case == 0
    &&& r.inner.placement_left == Placement::Undetected
    &&& r.inner.placement_right == Placement::Undetected
    &&& r.inner.equalizer_type == EqualizerType::Undetected
    &&& !r.inner.touchpads_blocked
    &&& !r.inner.noise_reduction
    &&& !r.inner.did_battery_notify
    &&& r.inner.touchpad_option_left == TouchpadOption::Undetected
    &&& r.inner.touchpad_option_right == TouchpadOption::Undetected
    &&& !r.inner.paused_music_earlier
    &&& r.inner.debug == (DebugInfo {
        voltage_left: 0i16,
        voltage_right: 0i16,
        temperature_left: 0i16,
        temperature_right: 0i16,
        current_left: 0i16,
        current_right: 0i16,
    })
    &&& !r.inner.ambient_sound_enabled
    &&& r.inner.ambient_sound_volume == 0
    &&& !r.inner.extra_high_ambient_volume
    &&& r.inner.tab_lock_status == ExtTapLockStatus::spec_all_off()
    &&& r.last_debug == now
    &&& r.left_tp_hold_count == 0
    &&& r.right_tp_hold_count == 0
    &&& r.last_tp_update == now
}

impl BudsInfo {
    /// A fresh record for a device that just connected: nothing is known of
    /// it yet, and both gesture counters start at zero.
    pub fn new(address: String, model: Model, now: u64) -> (r: BudsInfo)
        ensures
            spec_fresh_record(r, address@, model, now),
    {
        BudsInfo {
            inner: BudsInfoInner {
                address,
                ready: false,
                batt_left: 0,
                batt_right: 0,
                batt_case: 0,
                placement_left: Placement::Undetected,
                placement_right: Placement::Undetected,
                equalizer_type: EqualizerType::Undetected,
                touchpads_blocked: false,
                noise_reduction: false,
                did_battery_notify: false,
                touchpad_option_left: TouchpadOption::Undetected,
                touchpad_option_right: TouchpadOption::Undetected,
                paused_music_earlier: false,
                debug: DebugInfo::default(),
                model,
                ambient_sound_enabled: false,
                ambient_sound_volume: 0,
                extra_high_ambient_volume: false,
                tab_lock_status: ExtTapLockStatus::all_off(),
            },
            last_debug: now,
            left_tp_hold_count: 0,
            right_tp_hold_count: 0,
            last_tp_update: now,
        }
    }

    /// Shortcut for the model's capability table.
    pub fn has_feature(&self, feature: Feature) -> (r: bool)
        ensures
            r == self.inner.model.spec_has_feature(feature),
    {
        self.inner.has_feature(feature)
    }

    /// Zero both touchpad hold counters.
    pub fn reset_last_tp_update(&mut self)
        ensures
            final(self).left_tp_hold_count == 0,
            final(self).right_tp_hold_count == 0,
            final(self).inner == old(self).inner,
            final(self).last_debug == old(self).last_debug,
            final(self).last_tp_update == old(self).last_tp_update,
    {
        self.left_tp_hold_count = 0;
        self.right_tp_hold_count = 0;
    }

    /// The loudest ambient-volume level the device accepts.
    pub open spec fn spec_max_ambientsound_volume_level(self) -> u8 {
        match self.inner.model {
            Model::BudsLive => 0u8,
            Model::Buds => 3u8,
            Model::Buds2 => 3u8,
            Model::BudsPro | Model::BudsPlus | Model::BudsPro2 => if self.inner.model
                .spec_has_feature(Feature::ExtraHighAmbientVolume) {
                4u8
            } else {
                3u8
            },
        }
    }

    /// Returns the max ambient volume level for the given device.
    pub fn get_max_ambientsound_volume_level(&self) -> (r: u8)
        ensures
            r == self.spec_max_ambientsound_volume_level(),
    {
        match self.inner.model {
            Model::BudsPro | Model::BudsPlus | Model::BudsPro2 => {
                if self.has_feature(Feature::ExtraHighAmbientVolume) {
                    4
                } else {
                    3
                }
            },
            Model::BudsLive => 0,
            Model::Buds => 3,
            Model::Buds2 => 3,
        }
    }
}

impl Default for DebugInfo {
    /// All-zero telemetry, for a device that has not reported any yet.
    fn default() -> (r: DebugInfo)
        ensures
            r.voltage_left == 0 && r.voltage_right == 0,
            r.temperature_left == 0 && r.temperature_right == 0,
            r.current_left == 0 && r.current_right == 0,
    {
        DebugInfo {
            voltage_left: 0,
            voltage_right: 0,
            temperature_left: 0,
            temperature_right: 0,
            current_left: 0,
            current_right: 0,
        }
    }
}

} // verus!

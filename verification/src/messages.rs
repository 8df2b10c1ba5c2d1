//! The protocol messages the daemon understands: typed decoders for inbound
//! payloads and builders for outbound frames.

use vstd::prelude::*;

use crate::codec::{encode_message, spec_encode};
use crate::model::Model;
use crate::properties::{EqualizerType, Placement, Side, TouchpadOption};

verus! {

pub const STATUS_UPDATED: u8 = 96;
pub const EXTENDED_STATUS_UPDATED: u8 = 97;
pub const TOUCHPAD_ACTION: u8 = 45;
pub const DEBUG_GET_ALL_DATA: u8 = 38;
pub const AMBIENT_MODE_UPDATED: u8 = 129;
pub const NOISE_REDUCTION_MODE_UPDATE: u8 = 155;
pub const MANAGER_INFO: u8 = 136;
pub const LOCK_TOUCHPAD: u8 = 144;
pub const SET_NOISE_REDUCTION: u8 = 152;
pub const EQUALIZER: u8 = 134;
pub const SET_TOUCHPAD_OPTION: u8 = 146;
pub const SET_AMBIENT_MODE: u8 = 128;
pub const AMBIENT_VOLUME: u8 = 132;
pub const EXTRA_HIGH_AMBIENT: u8 = 150;

/// A byte read as a flag: the firmware sends 1 for true.
pub open spec fn byte_flag(s: Seq<u8>, i: int) -> bool {
    s[i] == 1
}

/// Bit `d` of byte `i`, read as a flag.
pub open spec fn bit_flag(s: Seq<u8>, i: int, d: u8) -> bool {
    ((s[i] >> d) & 1) == 1
}

/// The left earbud's nibble of a property byte.
pub open spec fn left_nibble(s: Seq<u8>, i: int) -> u8 {
    (s[i] & 0xF0) >> 4u8
}

/// The right earbud's nibble of a property byte.
pub open spec fn right_nibble(s: Seq<u8>, i: int) -> u8 {
    s[i] & 0x0F
}

/// A little-endian 16-bit word read as a signed value.
pub open spec fn short_at(s: Seq<u8>, i: int) -> i16 {
    (s[i] as u16 + 256 * (s[i + 1] as u16)) as i16
}

/// A periodic status report: battery levels and placements.
#[derive(Debug, Clone, Copy, PartialEq, Eq, Structural)]
pub struct StatusUpdate {
    pub battery_left: i8,
    pub battery_right: i8,
    pub battery_case: i8,
    pub placement_left: Placement,
    pub placement_right: Placement,
}

pub open spec fn spec_decode_status(p: Seq<u8>) -> Option<StatusUpdate> {
    if p.len() >= 7 {
        Some(StatusUpdate {
            battery_left: p[1] as i8,
            battery_right: p[2] as i8,
            battery_case: p[6] as i8,
            placement_left: Placement::spec_decode(left_nibble(p, 5)),
            placement_right: Placement::spec_decode(right_nibble(p, 5)),
        })
    } else {
        None
    }
}

/// Decode a status-update payload; the placements share one byte, one
/// nibble per side.
pub fn decode_status(p: &[u8]) -> (r: Option<StatusUpdate>)
    ensures
        r == spec_decode_status(p@),
{
    if p.len() < 7 {
        return None;
    }
    Some(StatusUpdate {
        battery_left: p[1] as i8,
        battery_right: p[2] as i8,
        battery_case: p[6] as i8,
        placement_left: Placement::decode((p[5] & 0xF0) >> 4),
        placement_right: Placement::decode(p[5] & 0x0F),
    })
}

/// The extended touchpad lock bits some models report.
#[derive(Debug, Clone, Copy, PartialEq, Eq, Structural)]
pub struct ExtTapLockStatus {
    pub touch_an_hold_on: bool,
    pub triple_tap_on: bool,
    pub double_tap_on: bool,
    pub tap_on: bool,
    pub touch_controls_on: bool,
}

impl ExtTapLockStatus {
    pub open spec fn spec_all_off() -> ExtTapLockStatus {
        ExtTapLockStatus {
            touch_an_hold_on: false,
            triple_tap_on: false,
            double_tap_on: false,
            tap_on: false,
            touch_controls_on: false,
        }
    }

    pub fn all_off() -> (r: ExtTapLockStatus)
        ensures
            r == ExtTapLockStatus::spec_all_off(),
    {
        ExtTapLockStatus {
            touch_an_hold_on: false,
            triple_tap_on: false,
            double_tap_on: false,
            tap_on: false,
            touch_controls_on: false,
        }
    }
}

/// The first full report after a connection: everything a status update has
/// plus equalizer, touchpad, noise-cancellation and ambient-sound state.
#[derive(Debug, Clone, Copy, PartialEq, Eq, Structural)]
pub struct ExtendedStatusUpdate {
    pub revision: u8,
    pub battery_left: i8,
    pub battery_right: i8,
    pub battery_case: i8,
    pub placement_left: Placement,
    pub placement_right: Placement,
    pub equalizer_type: EqualizerType,
    pub touchpads_blocked: bool,
    pub noise_reduction: bool,
    pub touchpad_option_left: TouchpadOption,
    pub touchpad_option_right: TouchpadOption,
    pub ambient_sound_enabled: bool,
    pub ambient_sound_volume: u8,
    pub extra_high_ambient: bool,
    pub tap_lock_status: ExtTapLockStatus,
}

/// The fields every model lays out the same way.
pub open spec fn spec_ext_common(p: Seq<u8>) -> ExtendedStatusUpdate {
    ExtendedStatusUpdate {
        revision: p[0],
        battery_left: p[2] as i8,
        battery_right: p[3] as i8,
        battery_case: p[7] as i8,
        placement_left: Placement::spec_decode(left_nibble(p, 6)),
        placement_right: Placement::spec_decode(right_nibble(p, 6)),
        equalizer_type: EqualizerType::Undetected,
        touchpads_blocked: false,
        noise_reduction: false,
        touchpad_option_left: TouchpadOption::Undetected,
        touchpad_option_right: TouchpadOption::Undetected,
        ambient_sound_enabled: false,
        ambient_sound_volume: 0,
        extra_high_ambient: false,
        tap_lock_status: ExtTapLockStatus::spec_all_off(),
    }
}

pub open spec fn spec_decode_extended(p: Seq<u8>, model: Model) -> Option<
    ExtendedStatusUpdate,
> {
    match model {
        Model::BudsLive => if p.len() >= 18 {
            Some(ExtendedStatusUpdate {
                equalizer_type: EqualizerType::spec_decode(p[9]),
                touchpads_blocked: byte_flag(p, 10),
                touchpad_option_left: TouchpadOption::spec_decode(left_nibble(p, 11)),
                touchpad_option_right: TouchpadOption::spec_decode(right_nibble(p, 11)),
                noise_reduction: byte_flag(p, 12),
                ..spec_ext_common(p)
            })
        } else {
            None
        },
        Model::BudsPlus => if p.len() >= 20 {
            Some(ExtendedStatusUpdate {
                ambient_sound_enabled: byte_flag(p, 8),
                ambient_sound_volume: p[9],
                equalizer_type: EqualizerType::spec_decode(p[11]),
                touchpads_blocked: byte_flag(p, 12),
                touchpad_option_left: TouchpadOption::spec_decode(left_nibble(p, 13)),
                touchpad_option_right: TouchpadOption::spec_decode(right_nibble(p, 13)),
                extra_high_ambient: p[0] >= 9 && byte_flag(p, 19),
                ..spec_ext_common(p)
            })
        } else {
            None
        },
        Model::BudsPro | Model::BudsPro2 => if p.len() >= 31 {
            Some(ExtendedStatusUpdate {
                equalizer_type: EqualizerType::spec_decode(p[9]),
                touchpads_blocked: byte_flag(p, 10),
                touchpad_option_left: TouchpadOption::spec_decode(left_nibble(p, 11)),
                touchpad_option_right: TouchpadOption::spec_decode(right_nibble(p, 11)),
                noise_reduction: byte_flag(p, 12),
                ambient_sound_volume: p[23],
                extra_high_ambient: if p[0] < 3 {
                    byte_flag(p, 22)
                } else if p[0] >= 6 {
                    byte_flag(p, 30)
                } else {
                    false
                },
                ..spec_ext_common(p)
            })
        } else {
            None
        },
        Model::Buds2 => if p.len() >= 33 {
            Some(ExtendedStatusUpdate {
                equalizer_type: EqualizerType::spec_decode(p[9]),
                touchpads_blocked: byte_flag(p, 10),
                touchpad_option_left: TouchpadOption::spec_decode(left_nibble(p, 11)),
                touchpad_option_right: TouchpadOption::spec_decode(right_nibble(p, 11)),
                noise_reduction: byte_flag(p, 12),
                ambient_sound_volume: p[23],
                extra_high_ambient: byte_flag(p, 26),
                tap_lock_status: ExtTapLockStatus {
                    touch_an_hold_on: bit_flag(p, 10, 0),
                    triple_tap_on: bit_flag(p, 10, 1),
                    double_tap_on: bit_flag(p, 10, 2),
                    tap_on: bit_flag(p, 10, 3),
                    touch_controls_on: bit_flag(p, 10, 7),
                },
                ..spec_ext_common(p)
            })
        } else {
            None
        },
        Model::Buds => None,
    }
}

/// Decode an extended-status payload; the field layout varies by model, and
/// the original Galaxy Buds model sends no extended report this decoder
/// understands.
pub fn decode_extended(p: &[u8], model: Model) -> (r: Option<ExtendedStatusUpdate>)
    ensures
        r == spec_decode_extended(p@, model),
{
    let needed: usize = match model {
        Model::BudsLive => 18,
        Model::BudsPlus => 20,
        Model::BudsPro | Model::BudsPro2 => 31,
        Model::Buds2 => 33,
        Model::Buds => return None,
    };
    if p.len() < needed {
        return None;
    }

    let mut u = ExtendedStatusUpdate {
        revision: p[0],
        battery_left: p[2] as i8,
        battery_right: p[3] as i8,
        battery_case: p[7] as i8,
        placement_left: Placement::decode((p[6] & 0xF0) >> 4),
        placement_right: Placement::decode(p[6] & 0x0F),
        equalizer_type: EqualizerType::Undetected,
        touchpads_blocked: false,
        noise_reduction: false,
        touchpad_option_left: TouchpadOption::Undetected,
        touchpad_option_right: TouchpadOption::Undetected,
        ambient_sound_enabled: false,
        ambient_sound_volume: 0,
        extra_high_ambient: false,
        tap_lock_status: ExtTapLockStatus::all_off(),
    };

    match model {
        Model::BudsLive => {
            u.equalizer_type = EqualizerType::decode(p[9]);
            u.touchpads_blocked = p[10] == 1;
            u.touchpad_option_left = TouchpadOption::decode((p[11] & 0xF0) >> 4);
            u.touchpad_option_right = TouchpadOption::decode(p[11] & 0x0F);
            u.noise_reduction = p[12] == 1;
        },
        Model::BudsPlus => {
            u.ambient_sound_enabled = p[8] == 1;
            u.ambient_sound_volume = p[9];
            u.equalizer_type = EqualizerType::decode(p[11]);
            u.touchpads_blocked = p[12] == 1;
            u.touchpad_option_left = TouchpadOption::decode((p[13] & 0xF0) >> 4);
            u.touchpad_option_right = TouchpadOption::decode(p[13] & 0x0F);
            u.extra_high_ambient = p[0] >= 9 && p[19] == 1;
        },
        Model::BudsPro | Model::BudsPro2 => {
            u.equalizer_type = EqualizerType::decode(p[9]);
            u.touchpads_blocked = p[10] == 1;
            u.touchpad_option_left = TouchpadOption::decode((p[11] & 0xF0) >> 4);
            u.touchpad_option_right = TouchpadOption::decode(p[11] & 0x0F);
            u.noise_reduction = p[12] == 1;
            u.ambient_sound_volume = p[23];
            u.extra_high_ambient = if p[0] < 3 {
                p[22] == 1
            } else if p[0] >= 6 {
                p[30] == 1
            } else {
                false
            };
        },
        Model::Buds2 => {
            u.equalizer_type = EqualizerType::decode(p[9]);
            u.touchpads_blocked = p[10] == 1;
            u.touchpad_option_left = TouchpadOption::decode((p[11] & 0xF0) >> 4);
            u.touchpad_option_right = TouchpadOption::decode(p[11] & 0x0F);
            u.noise_reduction = p[12] == 1;
            u.ambient_sound_volume = p[23];
            u.extra_high_ambient = p[26] == 1;
            u.tap_lock_status = ExtTapLockStatus {
                touch_an_hold_on: (p[10] >> 0) & 1 == 1,
                triple_tap_on: (p[10] >> 1) & 1 == 1,
                double_tap_on: (p[10] >> 2) & 1 == 1,
                tap_on: (p[10] >> 3) & 1 == 1,
                touch_controls_on: (p[10] >> 7) & 1 == 1,
            };
        },
        Model::Buds => return None,
    }

    Some(u)
}

/// One touchpad tap or hold event.
#[derive(Debug, Clone, Copy, PartialEq, Eq, Structural)]
pub struct TouchAction {
    pub side: Side,
    pub touch_count: u8,
}

pub open spec fn spec_decode_touch_action(p: Seq<u8>) -> Option<TouchAction> {
    if p.len() >= 2 {
        Some(TouchAction {
            side: if p[0] == 1 {
                Side::Left
            } else {
                Side::Right
            },
            touch_count: p[1],
        })
    } else {
        None
    }
}

pub fn decode_touch_action(p: &[u8]) -> (r: Option<TouchAction>)
    ensures
        r == spec_decode_touch_action(p@),
{
    if p.len() < 2 {
        return None;
    }
    Some(TouchAction {
        side: if p[0] == 1 {
            Side::Left
        } else {
            Side::Right
        },
        touch_count: p[1],
    })
}

pub open spec fn spec_decode_flag(p: Seq<u8>) -> Option<bool> {
    if p.len() >= 1 {
        Some(p[0] == 1)
    } else {
        None
    }
}

/// Decode an ambient-mode update: a single flag byte.
pub fn decode_ambient_updated(p: &[u8]) -> (r: Option<bool>)
    ensures
        r == spec_decode_flag(p@),
{
    if p.len() < 1 {
        return None;
    }
    Some(p[0] == 1)
}

/// Decode a noise-reduction update: a single flag byte.
pub fn decode_anc_updated(p: &[u8]) -> (r: Option<bool>)
    ensures
        r == spec_decode_flag(p@),
{
    if p.len() < 1 {
        return None;
    }
    Some(p[0] == 1)
}

/// Raw debug telemetry, in the fixed-point units the wire carries:
/// voltages in centivolts, temperatures in tenths of a degree, currents in
/// ten-thousandths of a milliampere.
#[derive(Debug, Clone, Copy, PartialEq, Eq, Structural)]
pub struct DebugInfo {
    pub voltage_left: i16,
    pub voltage_right: i16,
    pub temperature_left: i16,
    pub temperature_right: i16,
    pub current_left: i16,
    pub current_right: i16,
}

pub open spec fn spec_decode_debug(p: Seq<u8>, model: Model) -> Option<DebugInfo> {
    if model == Model::Buds || model == Model::BudsPro2 {
        None
    } else if p.len() >= 54 {
        Some(DebugInfo {
            voltage_left: short_at(p, 44),
            voltage_right: short_at(p, 50),
            temperature_left: short_at(p, 38),
            temperature_right: short_at(p, 40),
            current_left: short_at(p, 46),
            current_right: short_at(p, 52),
        })
    } else {
        None
    }
}

/// Decode the battery block of a debug telemetry report; two models send
/// no report this decoder understands.
pub fn decode_debug(p: &[u8], model: Model) -> (r: Option<DebugInfo>)
    ensures
        r == spec_decode_debug(p@, model),
{
    if matches!(model, Model::Buds | Model::BudsPro2) {
        return None;
    }
    if p.len() < 54 {
        return None;
    }
    Some(DebugInfo {
        voltage_left: read_short(p, 44),
        voltage_right: read_short(p, 50),
        temperature_left: read_short(p, 38),
        temperature_right: read_short(p, 40),
        current_left: read_short(p, 46),
        current_right: read_short(p, 52),
    })
}

fn read_short(p: &[u8], i: usize) -> (r: i16)
    requires
        i + 1 < p@.len(),
    ensures
        r == short_at(p@, i as int),
{
    (p[i] as u16 + 256 * (p[i + 1] as u16)) as i16
}

/// The manager-information message a session answers an extended status
/// report with.
pub fn manager_info_message(is_samsung: bool, android_sdk: u8) -> (r: Vec<u8>)
    ensures
        r@ == spec_encode(
            MANAGER_INFO,
            seq![1u8, if is_samsung { 1u8 } else { 0u8 }, android_sdk],
            false,
        ),
{
    let mut payload: Vec<u8> = Vec::new();
    payload.push(1);
    payload.push(if is_samsung {
        1
    } else {
        0
    });
    payload.push(android_sdk);
    assert(payload@ =~= seq![1u8, if is_samsung { 1u8 } else { 0u8 }, android_sdk]);
    encode_message(MANAGER_INFO, &payload, false)
}

/// The request for a debug telemetry report.
pub fn debug_request_message() -> (r: Vec<u8>)
    ensures
        r@ == spec_encode(DEBUG_GET_ALL_DATA, Seq::<u8>::empty(), false),
{
    let payload: Vec<u8> = Vec::new();
    assert(payload@ =~= Seq::<u8>::empty());
    encode_message(DEBUG_GET_ALL_DATA, &payload, false)
}

fn one_byte_message(id: u8, b: u8) -> (r: Vec<u8>)
    ensures
        r@ == spec_encode(id, seq![b], false),
{
    let mut payload: Vec<u8> = Vec::new();
    payload.push(b);
    encode_message(id, &payload, false)
}

/// Enable or disable noise cancellation.
pub fn set_noise_reduction_message(enabled: bool) -> (r: Vec<u8>)
    ensures
        r@ == spec_encode(SET_NOISE_REDUCTION, seq![if enabled { 1u8 } else { 0u8 }], false),
{
    one_byte_message(SET_NOISE_REDUCTION, if enabled {
        1
    } else {
        0
    })
}

/// Lock or unlock the touchpads.
pub fn lock_touchpad_message(lock: bool) -> (r: Vec<u8>)
    ensures
        r@ == spec_encode(LOCK_TOUCHPAD, seq![if lock { 1u8 } else { 0u8 }], false),
{
    one_byte_message(LOCK_TOUCHPAD, if lock {
        1
    } else {
        0
    })
}

/// Select an equalizer preset.
pub fn equalizer_message(eq: EqualizerType) -> (r: Vec<u8>)
    ensures
        r@ == spec_encode(EQUALIZER, seq![eq.spec_encode()], false),
{
    one_byte_message(EQUALIZER, eq.encode())
}

/// Assign the hold action of each touchpad.
pub fn set_touchpad_option_message(left: TouchpadOption, right: TouchpadOption) -> (r: Vec<u8>)
    ensures
        r@ == spec_encode(
            SET_TOUCHPAD_OPTION,
            seq![left.spec_encode(), right.spec_encode()],
            false,
        ),
{
    let mut payload: Vec<u8> = Vec::new();
    payload.push(left.encode());
    payload.push(right.encode());
    assert(payload@ =~= seq![left.spec_encode(), right.spec_encode()]);
    encode_message(SET_TOUCHPAD_OPTION, &payload, false)
}

/// Enable or disable ambient sound.
pub fn set_ambient_mode_message(enabled: bool) -> (r: Vec<u8>)
    ensures
        r@ == spec_encode(SET_AMBIENT_MODE, seq![if enabled { 1u8 } else { 0u8 }], false),
{
    one_byte_message(SET_AMBIENT_MODE, if enabled {
        1
    } else {
        0
    })
}

/// Set the ambient volume level; the firmware counts from zero, the user
/// interface from one.
pub fn set_ambient_volume_message(level: u8) -> (r: Vec<u8>)
    requires
        level >= 1,
    ensures
        r@ == spec_encode(AMBIENT_VOLUME, seq![(level - 1) as u8], false),
{
    one_byte_message(AMBIENT_VOLUME, level - 1)
}

/// Enable or disable the extra-high ambient volume step.
pub fn set_extra_high_volume_message(enabled: bool) -> (r: Vec<u8>)
    ensures
        r@ == spec_encode(EXTRA_HIGH_AMBIENT, seq![if enabled { 1u8 } else { 0u8 }], false),
{
    one_byte_message(EXTRA_HIGH_AMBIENT, if enabled {
        1
    } else {
        0
    })
}

/// The message that locks or unlocks each touchpad gesture separately, for
/// models with the extended touchpad lock.
pub struct ExtLockTouchpad {
    pub double_tap: bool,
    pub tap_on: bool,
    pub touch_and_hold: bool,
    pub touch_controls: bool,
    pub tripple_tap: bool,
}

impl ExtLockTouchpad {
    pub open spec fn spec_payload(self) -> Seq<u8> {
        seq![
            if self.touch_controls { 1u8 } else { 0u8 },
            if self.tap_on { 1u8 } else { 0u8 },
            if self.double_tap { 1u8 } else { 0u8 },
            if self.tripple_tap { 1u8 } else { 0u8 },
            if self.touch_and_hold { 1u8 } else { 0u8 },
            0u8,
            0u8,
        ]
    }

    pub fn from_ext_tap_lock_status(st: ExtTapLockStatus) -> (r: ExtLockTouchpad)
        ensures
            r.double_tap == st.double_tap_on,
            r.tap_on == st.tap_on,
            r.touch_and_hold == st.touch_an_hold_on,
            r.touch_controls == st.touch_controls_on,
            r.tripple_tap == st.triple_tap_on,
    {
        ExtLockTouchpad {
            double_tap: st.double_tap_on,
            tap_on: st.tap_on,
            touch_and_hold: st.touch_an_hold_on,
            touch_controls: st.touch_controls_on,
            tripple_tap: st.triple_tap_on,
        }
    }

    pub fn message(&self) -> (r: Vec<u8>)
        ensures
            r@ == spec_encode(LOCK_TOUCHPAD, self.spec_payload(), false),
    {
        let mut payload: Vec<u8> = Vec::new();
        payload.push(if self.touch_controls {
            1
        } else {
            0
        });
        payload.push(if self.tap_on {
            1
        } else {
            0
        });
        payload.push(if self.double_tap {
            1
        } else {
            0
        });
        payload.push(if self.tripple_tap {
            1
        } else {
            0
        });
        payload.push(if self.touch_and_hold {
            1
        } else {
            0
        });
        payload.push(0);
        payload.push(0);
        assert(payload@ =~= self.spec_payload());
        encode_message(LOCK_TOUCHPAD, &payload, false)
    }
}

} // verus!

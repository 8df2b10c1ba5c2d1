//! Executing control-plane requests against the device table: resolving the
//! addressed device, deciding which protocol messages to send, and shaping
//! the response.

use vstd::prelude::*;
use vstd::string::StringExecFns;

use crate::buds_config::Config;
use crate::buds_info::{BudsInfo, BudsInfoInner};
use crate::codec::spec_encode;
use crate::connection::{unique_data_addresses, ConnectionData};
use crate::json;
use crate::messages;
use crate::messages::ExtTapLockStatus;
use crate::model::Feature;
use crate::properties::{EqualizerType, Side, TouchpadOption};
use crate::response::Response;
use crate::rpc::Request;
use crate::utils;

verus! {

/// Why a set or toggle command was refused.
#[derive(Debug, Clone, Copy, PartialEq, Eq, Structural)]
pub enum SetError {
    MissingParameter,
    CouldNotParseValue,
    InvalidSide,
    InvalidVolumeLevel,
    FeatureNotSupported,
    InvalidKeyToSet,
    InvalidToggleKey,
}

impl SetError {
    pub open spec fn spec_message(self) -> Seq<char> {
        match self {
            SetError::MissingParameter => "Missing parameter"@,
            SetError::CouldNotParseValue => "could not parse value"@,
            SetError::InvalidSide => "Invalid side"@,
            SetError::InvalidVolumeLevel => "Invalid volume level"@,
            SetError::FeatureNotSupported => "Feature not supported by your model"@,
            SetError::InvalidKeyToSet => "Invalid key to set to"@,
            SetError::InvalidToggleKey => "Invalid key"@,
        }
    }

    /// The error's message, word for word as clients know it.
    pub fn message(&self) -> (r: String)
        ensures
            r@ == self.spec_message(),
    {
        match *self {
            SetError::MissingParameter => String::from_str("Missing parameter"),
            SetError::CouldNotParseValue => String::from_str("could not parse value"),
            SetError::InvalidSide => String::from_str("Invalid side"),
            SetError::InvalidVolumeLevel => String::from_str("Invalid volume level"),
            SetError::FeatureNotSupported => String::from_str(
                "Feature not supported by your model",
            ),
            SetError::InvalidKeyToSet => String::from_str("Invalid key to set to"),
            SetError::InvalidToggleKey => String::from_str("Invalid key"),
        }
    }
}

/// The record change that goes with one outbound message, applied once the
/// send succeeded.
#[derive(Debug, Clone, Copy, PartialEq, Eq, Structural)]
pub enum PendingUpdate {
    NoiseReduction(bool),
    TouchpadLock(bool),
    ExtTapLock(ExtTapLockStatus),
    Equalizer(EqualizerType),
    TouchpadOptions(TouchpadOption, TouchpadOption),
    AmbientMode(bool),
    AmbientVolume(u8),
    ExtraHighVolume(bool),
}

/// The message bytes that carry one pending update to the device.
pub open spec fn spec_update_message(u: PendingUpdate) -> Seq<u8> {
    match u {
        PendingUpdate::NoiseReduction(b) => spec_encode(
            messages::SET_NOISE_REDUCTION,
            seq![if b { 1u8 } else { 0u8 }],
            false,
        ),
        PendingUpdate::TouchpadLock(b) => spec_encode(
            messages::LOCK_TOUCHPAD,
            seq![if b { 1u8 } else { 0u8 }],
            false,
        ),
        PendingUpdate::ExtTapLock(st) => spec_encode(
            messages::LOCK_TOUCHPAD,
            seq![
                if st.touch_controls_on { 1u8 } else { 0u8 },
                if st.tap_on { 1u8 } else { 0u8 },
                if st.double_tap_on { 1u8 } else { 0u8 },
                if st.triple_tap_on { 1u8 } else { 0u8 },
                if st.touch_an_hold_on { 1u8 } else { 0u8 },
                0u8,
                0u8,
            ],
            false,
        ),
        PendingUpdate::Equalizer(eq) => spec_encode(
            messages::EQUALIZER,
            seq![eq.spec_encode()],
            false,
        ),
        PendingUpdate::TouchpadOptions(l, r) => spec_encode(
            messages::SET_TOUCHPAD_OPTION,
            seq![l.spec_encode(), r.spec_encode()],
            false,
        ),
        PendingUpdate::AmbientMode(b) => spec_encode(
            messages::SET_AMBIENT_MODE,
            seq![if b { 1u8 } else { 0u8 }],
            false,
        ),
        PendingUpdate::AmbientVolume(v) => spec_encode(
            messages::AMBIENT_VOLUME,
            seq![(v - 1) as u8],
            false,
        ),
        PendingUpdate::ExtraHighVolume(b) => spec_encode(
            messages::EXTRA_HIGH_AMBIENT,
            seq![if b { 1u8 } else { 0u8 }],
            false,
        ),
    }
}

/// One step of a set command: the message to send and the record change to
/// apply when the send succeeds.
#[derive(Debug)]
pub struct SetStep {
    pub message: Vec<u8>,
    pub update: PendingUpdate,
}

/// Write a confirmed update into the record.
pub fn apply_update(info: &mut BudsInfo, u: &PendingUpdate)
    ensures
        final(info).inner == (match *u {
            PendingUpdate::NoiseReduction(b) => BudsInfoInner {
                noise_reduction: b,
                ..old(info).inner
            },
            PendingUpdate::TouchpadLock(b) => BudsInfoInner {
                touchpads_blocked: b,
                ..old(info).inner
            },
            PendingUpdate::ExtTapLock(st) => BudsInfoInner {
                tab_lock_status: st,
                ..old(info).inner
            },
            PendingUpdate::Equalizer(eq) => BudsInfoInner {
                equalizer_type: eq,
                ..old(info).inner
            },
            PendingUpdate::TouchpadOptions(l, r) => BudsInfoInner {
                touchpad_option_left: l,
                touchpad_option_right: r,
                ..old(info).inner
            },
            PendingUpdate::AmbientMode(b) => BudsInfoInner {
                ambient_sound_enabled: b,
                ..old(info).inner
            },
            PendingUpdate::AmbientVolume(v) => BudsInfoInner {
                ambient_sound_volume: v,
                ..old(info).inner
            },
            PendingUpdate::ExtraHighVolume(b) => BudsInfoInner {
                extra_high_ambient_volume: b,
                ..old(info).inner
            },
        }),
        final(info).last_debug == old(info).last_debug,
        final(info).left_tp_hold_count == old(info).left_tp_hold_count,
        final(info).right_tp_hold_count == old(info).right_tp_hold_count,
        final(info).last_tp_update == old(info).last_tp_update,
{
    match *u {
        PendingUpdate::NoiseReduction(b) => {
            info.inner.noise_reduction = b;
        },
        PendingUpdate::TouchpadLock(b) => {
            info.inner.touchpads_blocked = b;
        },
        PendingUpdate::ExtTapLock(st) => {
            info.inner.tab_lock_status = st;
        },
        PendingUpdate::Equalizer(eq) => {
            info.inner.equalizer_type = eq;
        },
        PendingUpdate::TouchpadOptions(l, r) => {
            info.inner.touchpad_option_left = l;
            info.inner.touchpad_option_right = r;
        },
        PendingUpdate::AmbientMode(b) => {
            info.inner.ambient_sound_enabled = b;
        },
        PendingUpdate::AmbientVolume(v) => {
            info.inner.ambient_sound_volume = v;
        },
        PendingUpdate::ExtraHighVolume(b) => {
            info.inner.extra_high_ambient_volume = b;
        },
    }
}

pub open spec fn spec_parse_u8(s: Seq<char>) -> Option<u8> {
    match json::spec_parse_int(s) {
        Some((x, rest)) => if rest.len() == 0 && 0 <= x < 256 {
            Some(x as u8)
        } else {
            None
        },
        None => None,
    }
}

/// Read a small decimal number, as the set commands take their values.
pub fn parse_u8(s: &String) -> (r: Option<u8>)
    ensures
        r == spec_parse_u8(s@),
{
    let cs = json::str_chars(s.as_str());
    proof {
        assert(cs@.skip(0) =~= s@);
    }
    match json::parse_int(cs.as_slice(), 0) {
        Some((x, j)) => {
            proof {
                if j == cs@.len() {
                    assert(cs@.skip(j as int).len() == 0);
                } else {
                    assert(cs@.skip(j as int).len() > 0);
                }
            }
            if j == cs.len() && 0 <= x && x < 256 {
                Some(x as u8)
            } else {
                None
            }
        },
        None => None,
    }
}

/// The extended touchpad lock a lock command produces: the current status
/// with the addressed gestures enabled or disabled and touch controls kept
/// on.
pub open spec fn spec_ext_lock(
    cur: ExtTapLockStatus,
    val: bool,
    p3: Option<Seq<char>>,
) -> Option<ExtTapLockStatus> {
    let base = ExtTapLockStatus { touch_controls_on: true, ..cur };
    match p3 {
        None => Some(
            ExtTapLockStatus { tap_on: val, touch_an_hold_on: val, ..base },
        ),
        Some(p) => {
            let low = utils::lower_seq(p);
            if low == "tap"@ {
                Some(ExtTapLockStatus { tap_on: val, ..base })
            } else if low == "doubletap"@ || low == "dtap"@ {
                Some(ExtTapLockStatus { double_tap_on: val, ..base })
            } else if low == "tripletap"@ || low == "ttap"@ {
                Some(ExtTapLockStatus { triple_tap_on: val, ..base })
            } else if low == "hold"@ {
                Some(ExtTapLockStatus { touch_an_hold_on: val, ..base })
            } else {
                None
            }
        },
    }
}

/// The sequence of updates a volume command needs: ambient sound and the
/// extra-high step are switched on or off around the volume itself.
pub open spec fn spec_ambient_steps(v: u8, inner: BudsInfoInner) -> Seq<PendingUpdate> {
    let ehv = inner.model.spec_has_feature(Feature::ExtraHighAmbientVolume);
    let pre: Seq<PendingUpdate> = if ehv && v == 4 && !inner.extra_high_ambient_volume {
        (if !inner.ambient_sound_enabled {
            seq![PendingUpdate::AmbientMode(true)]
        } else {
            Seq::empty()
        }) + seq![PendingUpdate::ExtraHighVolume(true)]
    } else if ehv && inner.extra_high_ambient_volume {
        seq![PendingUpdate::ExtraHighVolume(false)]
    } else {
        Seq::empty()
    };
    let amb1 = inner.ambient_sound_enabled || (ehv && v == 4 && !inner.extra_high_ambient_volume);
    if v == 0 && amb1 {
        pre + seq![PendingUpdate::AmbientMode(false)]
    } else if v == 0 {
        pre
    } else if !amb1 {
        pre + seq![PendingUpdate::AmbientMode(true), PendingUpdate::AmbientVolume(v)]
    } else {
        pre + seq![PendingUpdate::AmbientVolume(v)]
    }
}

/// What a set command decides: the updates to carry out, or the error to
/// report.
pub open spec fn spec_set_steps(
    key: Seq<char>,
    value: Seq<char>,
    p3: Option<Seq<char>>,
    inner: BudsInfoInner,
) -> Result<Seq<PendingUpdate>, SetError> {
    if key == "noise_reduction"@ {
        if !inner.model.spec_has_feature(Feature::Anc) {
            Err(SetError::FeatureNotSupported)
        } else {
            Ok(seq![PendingUpdate::NoiseReduction(utils::spec_str_to_bool(value))])
        }
    } else if key == "lock_touchpad"@ {
        if inner.model.spec_has_feature(Feature::ExtTouchpadLock) {
            match spec_ext_lock(inner.tab_lock_status, !utils::spec_str_to_bool(value), p3) {
                Some(st) => Ok(seq![PendingUpdate::ExtTapLock(st)]),
                // An unknown gesture name leaves the device untouched.
                None => Ok(Seq::empty()),
            }
        } else {
            Ok(seq![PendingUpdate::TouchpadLock(utils::spec_str_to_bool(value))])
        }
    } else if key == "equalizer"@ {
        match spec_parse_u8(value) {
            Some(v) => Ok(seq![PendingUpdate::Equalizer(EqualizerType::spec_decode(v))]),
            None => Err(SetError::CouldNotParseValue),
        }
    } else if key == "touchpad_action"@ {
        match spec_parse_u8(value) {
            None => Err(SetError::CouldNotParseValue),
            Some(v) => {
                let opt = TouchpadOption::spec_decode(v);
                match p3 {
                    Some(p) => match utils::spec_str_to_side(p) {
                        None => Err(SetError::InvalidSide),
                        Some(Side::Left) => Ok(
                            seq![
                                PendingUpdate::TouchpadOptions(opt, inner.touchpad_option_right),
                            ],
                        ),
                        Some(Side::Right) => Ok(
                            seq![PendingUpdate::TouchpadOptions(inner.touchpad_option_left, opt)],
                        ),
                    },
                    None => Ok(seq![PendingUpdate::TouchpadOptions(opt, opt)]),
                }
            },
        }
    } else if key == "ambient_volume"@ {
        match spec_parse_u8(value) {
            None => Err(SetError::CouldNotParseValue),
            Some(v) => if !inner.model.spec_has_feature(Feature::AmbientSound) {
                Err(SetError::FeatureNotSupported)
            } else if v > (BudsInfo {
                inner,
                last_debug: 0,
                left_tp_hold_count: 0,
                right_tp_hold_count: 0,
                last_tp_update: 0,
            }).spec_max_ambientsound_volume_level() {
                Err(SetError::InvalidVolumeLevel)
            } else {
                Ok(spec_ambient_steps(v, inner))
            },
        }
    } else {
        Err(SetError::InvalidKeyToSet)
    }
}

/// Whether a built step list carries out the decided updates, message for
/// message.
pub open spec fn steps_match(steps: Seq<SetStep>, us: Seq<PendingUpdate>) -> bool {
    &&& steps.len() == us.len()
    &&& forall|i: int|
        0 <= i < steps.len() ==> (#[trigger] steps[i].update) == us[i] && steps[i].message@
            == spec_update_message(us[i])
}

fn push_step(steps: &mut Vec<SetStep>, message: Vec<u8>, update: PendingUpdate)
    requires
        message@ == spec_update_message(update),
    ensures
        final(steps)@.len() == old(steps)@.len() + 1,
        forall|i: int| 0 <= i < old(steps)@.len() ==> final(steps)@[i] == old(steps)@[i],
        final(steps)@.last().update == update,
        final(steps)@.last().message@ == spec_update_message(update),
{
    steps.push(SetStep { message, update });
}

/// Decide the messages a set command sends, without sending any.
pub fn set_buds_option(
    key: &String,
    value: &String,
    opt_param3: &Option<String>,
    info: &BudsInfo,
) -> (r: Result<Vec<SetStep>, SetError>)
    ensures
        match r {
            Ok(steps) => spec_set_steps(
                key@,
                value@,
                crate::rpc::opt_view(*opt_param3),
                info.inner,
            ) matches Ok(us) && steps_match(steps@, us),
            Err(e) => spec_set_steps(key@, value@, crate::rpc::opt_view(*opt_param3), info.inner)
                == Err::<Seq<PendingUpdate>, SetError>(e),
        },
{
    let key_chars = json::str_chars(key.as_str());
    let mut steps: Vec<SetStep> = Vec::new();

    if utils::chars_eq_lit(&key_chars, "noise_reduction") {
        if !info.has_feature(Feature::Anc) {
            return Err(SetError::FeatureNotSupported);
        }
        let b = utils::str_to_bool(value.as_str());
        push_step(&mut steps, messages::set_noise_reduction_message(b), PendingUpdate::NoiseReduction(b));
        Ok(steps)
    } else if utils::chars_eq_lit(&key_chars, "lock_touchpad") {
        if info.has_feature(Feature::ExtTouchpadLock) {
            let val = !utils::str_to_bool(value.as_str());
            let cur = info.inner.tab_lock_status;
            let mut st = ExtTapLockStatus { touch_controls_on: true, ..cur };
            match opt_param3 {
                None => {
                    st.tap_on = val;
                    st.touch_an_hold_on = val;
                },
                Some(p) => {
                    let low = utils::lower_chars(p.as_str());
                    if utils::chars_eq_lit(&low, "tap") {
                        st.tap_on = val;
                    } else if utils::chars_eq_lit(&low, "doubletap") || utils::chars_eq_lit(
                        &low,
                        "dtap",
                    ) {
                        st.double_tap_on = val;
                    } else if utils::chars_eq_lit(&low, "tripletap") || utils::chars_eq_lit(
                        &low,
                        "ttap",
                    ) {
                        st.triple_tap_on = val;
                    } else if utils::chars_eq_lit(&low, "hold") {
                        st.touch_an_hold_on = val;
                    } else {
                        return Ok(steps);
                    }
                },
            }
            let msg = messages::ExtLockTouchpad {
                double_tap: st.double_tap_on,
                tap_on: st.tap_on,
                touch_and_hold: st.touch_an_hold_on,
                touch_controls: st.touch_controls_on,
                tripple_tap: st.triple_tap_on,
            };
            push_step(&mut steps, msg.message(), PendingUpdate::ExtTapLock(st));
            Ok(steps)
        } else {
            let b = utils::str_to_bool(value.as_str());
            push_step(&mut steps, messages::lock_touchpad_message(b), PendingUpdate::TouchpadLock(b));
            Ok(steps)
        }
    } else if utils::chars_eq_lit(&key_chars, "equalizer") {
        match parse_u8(value) {
            Some(v) => {
                let eq = EqualizerType::decode(v);
                push_step(&mut steps, messages::equalizer_message(eq), PendingUpdate::Equalizer(eq));
                Ok(steps)
            },
            None => Err(SetError::CouldNotParseValue),
        }
    } else if utils::chars_eq_lit(&key_chars, "touchpad_action") {
        match parse_u8(value) {
            None => Err(SetError::CouldNotParseValue),
            Some(v) => {
                let opt = TouchpadOption::decode(v);
                let mut left = info.inner.touchpad_option_left;
                let mut right = info.inner.touchpad_option_right;
                match opt_param3 {
                    Some(p) => match utils::str_to_side(p.as_str()) {
                        None => {
                            return Err(SetError::InvalidSide);
                        },
                        Some(Side::Left) => {
                            left = opt;
                        },
                        Some(Side::Right) => {
                            right = opt;
                        },
                    },
                    None => {
                        left = opt;
                        right = opt;
                    },
                }
                push_step(
                    &mut steps,
                    messages::set_touchpad_option_message(left, right),
                    PendingUpdate::TouchpadOptions(left, right),
                );
                Ok(steps)
            },
        }
    } else if utils::chars_eq_lit(&key_chars, "ambient_volume") {
        match parse_u8(value) {
            None => Err(SetError::CouldNotParseValue),
            Some(v) => {
                if !info.has_feature(Feature::AmbientSound) {
                    return Err(SetError::FeatureNotSupported);
                }
                if v > info.get_max_ambientsound_volume_level() {
                    return Err(SetError::InvalidVolumeLevel);
                }
                let ehv = info.has_feature(Feature::ExtraHighAmbientVolume);
                let mut amb = info.inner.ambient_sound_enabled;
                if ehv && v == 4 && !info.inner.extra_high_ambient_volume {
                    if !amb {
                        push_step(
                            &mut steps,
                            messages::set_ambient_mode_message(true),
                            PendingUpdate::AmbientMode(true),
                        );
                        amb = true;
                    }
                    push_step(
                        &mut steps,
                        messages::set_extra_high_volume_message(true),
                        PendingUpdate::ExtraHighVolume(true),
                    );
                } else if ehv && info.inner.extra_high_ambient_volume {
                    push_step(
                        &mut steps,
                        messages::set_extra_high_volume_message(false),
                        PendingUpdate::ExtraHighVolume(false),
                    );
                }
                if v == 0 && amb {
                    push_step(
                        &mut steps,
                        messages::set_ambient_mode_message(false),
                        PendingUpdate::AmbientMode(false),
                    );
                    proof {
                        assert(steps_match(
                            steps@,
                            spec_ambient_steps(v, info.inner),
                        ));
                    }
                    return Ok(steps);
                }
                if v == 0 {
                    proof {
                        assert(steps_match(steps@, spec_ambient_steps(v, info.inner)));
                    }
                    return Ok(steps);
                }
                if !amb {
                    push_step(
                        &mut steps,
                        messages::set_ambient_mode_message(true),
                        PendingUpdate::AmbientMode(true),
                    );
                }
                push_step(
                    &mut steps,
                    messages::set_ambient_volume_message(v),
                    PendingUpdate::AmbientVolume(v),
                );
                proof {
                    assert(steps_match(steps@, spec_ambient_steps(v, info.inner)));
                }
                Ok(steps)
            },
        }
    } else {
        Err(SetError::InvalidKeyToSet)
    }
}


/// The written form of a toggled flag, handed back through the set path.
pub open spec fn bool_word(b: bool) -> Seq<char> {
    if b {
        "true"@
    } else {
        "false"@
    }
}

/// What a toggle command decides: the current flag negated, run through the
/// set path.
pub open spec fn spec_toggle_steps(
    key: Seq<char>,
    p3: Option<Seq<char>>,
    inner: BudsInfoInner,
) -> Result<Seq<PendingUpdate>, SetError> {
    if key == "noise_reduction"@ {
        spec_set_steps(key, bool_word(!inner.noise_reduction), p3, inner)
    } else if key == "lock_touchpad"@ {
        spec_set_steps(key, bool_word(!inner.touchpads_blocked), p3, inner)
    } else {
        Err(SetError::InvalidToggleKey)
    }
}

/// Decide a toggle command: the named flag's negation is set.
pub fn toggle_buds_option(key: &String, opt_param3: &Option<String>, info: &BudsInfo) -> (r:
    Result<Vec<SetStep>, SetError>)
    ensures
        match r {
            Ok(steps) => spec_toggle_steps(
                key@,
                crate::rpc::opt_view(*opt_param3),
                info.inner,
            ) matches Ok(us) && steps_match(steps@, us),
            Err(e) => spec_toggle_steps(key@, crate::rpc::opt_view(*opt_param3), info.inner)
                == Err::<Seq<PendingUpdate>, SetError>(e),
        },
{
    let key_chars = json::str_chars(key.as_str());
    let value: String;
    if utils::chars_eq_lit(&key_chars, "noise_reduction") {
        value = String::from_str(if !info.inner.noise_reduction {
            "true"
        } else {
            "false"
        });
    } else if utils::chars_eq_lit(&key_chars, "lock_touchpad") {
        value = String::from_str(if !info.inner.touchpads_blocked {
            "true"
        } else {
            "false"
        });
    } else {
        return Err(SetError::InvalidToggleKey);
    }
    set_buds_option(key, &value, opt_param3, info)
}

/// What a request drives the daemon to do.
#[derive(Debug)]
pub enum RequestOutcome {
    /// Answer at once; the settings file is persisted first when asked.
    Respond { response: Response, save_config: bool },
    /// Send the steps' messages to the device at `pos` in the table,
    /// applying each update as its send succeeds, and answer afterwards
    /// through [`respond_set_result`].
    DeviceCommand { pos: usize, address: String, steps: Vec<SetStep> },
    /// Ask the adapter to connect or disconnect the address; its answer is
    /// relayed as the response text.
    ChangeConnection { address: String, connect: bool },
    /// An unknown command gets no response.
    Ignore,
}

/// The response once a set command's sends finished: success, or the error
/// that stopped them.
pub fn respond_set_result(address: String, result: Result<(), String>) -> (r: Response)
    ensures
        match result {
            Ok(()) => {
                &&& r.status@ == "success"@
                &&& r.device@ == address@
                &&& r.status_message is None
            },
            Err(e) => {
                &&& r.status@ == "error"@
                &&& r.device@ == Seq::<char>::empty()
                &&& crate::rpc::opt_view(r.status_message) == Some(e@)
            },
        },
        r.payload is None,
{
    match result {
        Ok(()) => Response::new_success(address, None),
        Err(e) => Response::new_error(String::new(), e),
    }
}

/// Which settings key a set-config command names.
pub open spec fn spec_config_field(key: Seq<char>) -> bool {
    ||| key == "auto_pause"@
    ||| key == "auto_play"@
    ||| key == "smart_sink"@
    ||| key == "low_battery_notification"@
}

/// A settings entry with one field replaced.
pub open spec fn spec_config_with(
    c: crate::buds_config::BudsConfig,
    key: Seq<char>,
    value: bool,
) -> crate::buds_config::BudsConfig {
    if key == "auto_pause"@ {
        crate::buds_config::BudsConfig { auto_pause_music: Some(value), ..c }
    } else if key == "auto_play"@ {
        crate::buds_config::BudsConfig { auto_resume_music: Some(value), ..c }
    } else if key == "smart_sink"@ {
        crate::buds_config::BudsConfig { smart_sink: Some(value), ..c }
    } else {
        crate::buds_config::BudsConfig { low_battery_notification: Some(value), ..c }
    }
}

/// Persist one boolean setting for a device. Returns the response and
/// whether the settings file must be written.
pub fn set_config_value(
    payload: &Request,
    address: String,
    config: &mut Config,
) -> (r: (Response, bool))
    ensures
        ({
            let (response, save) = r;
            &&& !crate::buds_config::spec_has_device_config(
                old(config).buds_settings@,
                address@,
            ) ==> {
                &&& response.status@ == "error"@
                &&& crate::rpc::opt_view(response.status_message) == Some("Device has no config!"@)
                &&& !save
                &&& *final(config) == *old(config)
            }
            &&& crate::buds_config::spec_has_device_config(old(config).buds_settings@, address@)
                && (payload.opt_param1 is None || payload.opt_param2 is None) ==> {
                &&& response.status@ == "error"@
                &&& crate::rpc::opt_view(response.status_message) == Some("Missing parameter"@)
                &&& !save
                &&& *final(config) == *old(config)
            }
            &&& (crate::buds_config::spec_has_device_config(old(config).buds_settings@, address@)
                && payload.opt_param1 is Some && payload.opt_param2 is Some) ==> {
                let p1 = payload.opt_param1->Some_0;
                let p2 = payload.opt_param2->Some_0;
                if spec_config_field(p1@) {
                    &&& response.status@ == "success"@
                    &&& response.device@ == address@
                    &&& save
                    &&& exists|i: int|
                        {
                            &&& 0 <= i < old(config).buds_settings@.len()
                            &&& old(config).buds_settings@[i].address@ == address@
                            &&& final(config).buds_settings@ == old(
                                config,
                            ).buds_settings@.update(
                                i,
                                spec_config_with(
                                    old(config).buds_settings@[i],
                                    p1@,
                                    utils::spec_str_to_bool(p2@),
                                ),
                            )
                        }
                } else {
                    &&& response.status@ == "error"@
                    &&& crate::rpc::opt_view(response.status_message) == Some("Invalid key"@)
                    &&& !save
                    &&& *final(config) == *old(config)
                }
            }
        }),
{
    let pos = match config.get_device_config_pos(&address) {
        Some(p) => p,
        None => {
            return (
                Response::new_error(String::new(), String::from_str("Device has no config!")),
                false,
            );
        },
    };
    let p1 = match &payload.opt_param1 {
        Some(p) => p,
        None => {
            return (
                Response::new_error(String::new(), String::from_str("Missing parameter")),
                false,
            );
        },
    };
    let p2 = match &payload.opt_param2 {
        Some(p) => p,
        None => {
            return (
                Response::new_error(String::new(), String::from_str("Missing parameter")),
                false,
            );
        },
    };
    let value = utils::str_to_bool(p2.as_str());
    let key_chars = json::str_chars(p1.as_str());
    let entry = &config.buds_settings[pos];
    let mut updated = crate::buds_config::BudsConfig {
        address: entry.address.clone(),
        default: entry.default,
        low_battery_notification: entry.low_battery_notification,
        auto_resume_music: entry.auto_resume_music,
        auto_pause_music: entry.auto_pause_music,
        smart_sink: entry.smart_sink,
        smart_touchpad: entry.smart_touchpad,
        hold_to_disconnect: entry.hold_to_disconnect,
    };
    if utils::chars_eq_lit(&key_chars, "auto_pause") {
        updated.auto_pause_music = Some(value);
    } else if utils::chars_eq_lit(&key_chars, "auto_play") {
        updated.auto_resume_music = Some(value);
    } else if utils::chars_eq_lit(&key_chars, "smart_sink") {
        updated.smart_sink = Some(value);
    } else if utils::chars_eq_lit(&key_chars, "low_battery_notification") {
        updated.low_battery_notification = Some(value);
    } else {
        return (Response::new_error(String::new(), String::from_str("Invalid key")), false);
    }
    config.buds_settings.set(pos, updated);
    (Response::new_success(address, None), true)
}


/// The address a request names, with an absent one reading as empty.
pub open spec fn req_device_view(req: Request) -> Seq<char> {
    match req.device {
        Some(d) => d@,
        None => Seq::empty(),
    }
}

/// Whether some ready device carries the address.
pub open spec fn spec_ready_at(data: Seq<BudsInfo>, addr: Seq<char>) -> bool {
    exists|i: int|
        0 <= i < data.len() && data[i].inner.address@ == addr && data[i].inner.ready
}

/// Whether any device is ready to be addressed.
pub open spec fn spec_any_ready(data: Seq<BudsInfo>) -> bool {
    exists|i: int| 0 <= i < data.len() && data[i].inner.ready
}

/// Serve one request against the device table and the settings. Status
/// queries answer from the table; set and toggle commands hand back the
/// messages to send; connect and disconnect go to the adapter. With no
/// ready device, everything but a connect is refused.
#[verifier::rlimit(100)]
#[verifier::spinoff_prover]
pub fn handle_request(req: &Request, cd: &ConnectionData, config: &mut Config) -> (r:
    RequestOutcome)
    requires
        unique_data_addresses(cd.data@),
    ensures
        // With no ready device, every command but a connect is refused.
        !spec_any_ready(cd.data@) && req.cmd@ != "connect"@ ==> (r matches
            RequestOutcome::Respond { response, save_config } && {
            &&& response.status@ == "error"@
            &&& response.device@ == Seq::<char>::empty()
            &&& crate::rpc::opt_view(response.status_message) == Some(
                "No connected device found"@,
            )
            &&& response.payload is None
            &&& !save_config
            &&& *final(config) == *old(config)
        }),
        // A named device must be connected and ready.
        spec_any_ready(cd.data@) && req_device_view(*req).len() > 0 && !spec_ready_at(
            cd.data@,
            req_device_view(*req),
        ) ==> (r matches RequestOutcome::Respond { response, save_config } && {
            &&& response.status@ == "error"@
            &&& crate::rpc::opt_view(response.status_message) == Some("Device not found"@)
            &&& response.payload is None
            &&& !save_config
            &&& *final(config) == *old(config)
        }),
        // A status query returns the resolved device's snapshot.
        spec_any_ready(cd.data@) && req.cmd@ == "get_status"@ && req_device_view(*req).len() == 0
            ==> (r matches RequestOutcome::Respond { response, save_config } && {
            &&& response.status@ == "success"@
            &&& response.device@ == cd.data@[0].inner.address@
            &&& response.payload matches Some(p) && crate::buds_info::same_snapshot(
                p,
                cd.data@[0].inner,
            )
            &&& !save_config
            &&& *final(config) == *old(config)
        }),
        spec_any_ready(cd.data@) && req.cmd@ == "get_status"@ && req_device_view(*req).len() > 0
            && spec_ready_at(cd.data@, req_device_view(*req)) ==> (r matches
            RequestOutcome::Respond { response, save_config } && {
            &&& response.status@ == "success"@
            &&& response.device@ == req_device_view(*req)
            &&& response.payload matches Some(p) && exists|i: int|
                0 <= i < cd.data@.len() && cd.data@[i].inner.address@ == req_device_view(*req)
                    && crate::buds_info::same_snapshot(p, cd.data@[i].inner)
            &&& !save_config
            &&& *final(config) == *old(config)
        }),
        // A set command with both parameters runs the set path against the
        // resolved device.
        spec_any_ready(cd.data@) && req.cmd@ == "set_value"@ && req_device_view(*req).len() > 0
            && spec_ready_at(cd.data@, req_device_view(*req)) && req.opt_param1 is Some
            && req.opt_param2 is Some ==> {
            let addr = req_device_view(*req);
            &&& *final(config) == *old(config)
            &&& exists|i: int|
                0 <= i < cd.data@.len() && cd.data@[i].inner.address@ == addr && (match
                    spec_set_steps(
                    req.opt_param1->Some_0@,
                    req.opt_param2->Some_0@,
                    crate::rpc::opt_view(req.opt_param3),
                    cd.data@[i].inner,
                ) {
                    Ok(us) => r matches RequestOutcome::DeviceCommand {
                        pos,
                        address,
                        steps,
                    } && pos == i && address@ == addr && steps_match(steps@, us),
                    Err(e) => r matches RequestOutcome::Respond { response, save_config } && {
                        &&& response.status@ == "error"@
                        &&& crate::rpc::opt_view(response.status_message) == Some(
                            e.spec_message(),
                        )
                        &&& !save_config
                    },
                })
        },
        // A set or toggle command without its parameters is refused.
        spec_any_ready(cd.data@) && (req.cmd@ == "set_value"@ && (req.opt_param1 is None
            || req.opt_param2 is None) || req.cmd@ == "toggle_value"@ && req.opt_param1 is None)
            && (req_device_view(*req).len() == 0 || spec_ready_at(
            cd.data@,
            req_device_view(*req),
        )) ==> (r matches RequestOutcome::Respond { response, save_config } && {
            &&& response.status@ == "error"@
            &&& crate::rpc::opt_view(response.status_message) == Some("Missing parameter"@)
            &&& !save_config
            &&& *final(config) == *old(config)
        }),
        // Connect and disconnect go to the adapter with the resolved
        // address.
        spec_any_ready(cd.data@) && (req.cmd@ == "connect"@ || req.cmd@ == "disconnect"@)
            && req_device_view(*req).len() > 0 && spec_ready_at(
            cd.data@,
            req_device_view(*req),
        ) ==> (r matches RequestOutcome::ChangeConnection { address, connect } && {
            &&& address@ == req_device_view(*req)
            &&& connect == (req.cmd@ == "connect"@)
            &&& *final(config) == *old(config)
        }),
{
    proof {
        reveal_strlit("get_status");
        reveal_strlit("set_value");
        reveal_strlit("toggle_value");
        reveal_strlit("set_config");
        reveal_strlit("connect");
        reveal_strlit("disconnect");
    }
    let cmd_chars = json::str_chars(req.cmd.as_str());
    let is_connect = utils::chars_eq_lit(&cmd_chars, "connect");

    if cd.get_device_count() == 0 && !is_connect {
        return RequestOutcome::Respond {
            response: Response::new_error(
                String::new(),
                String::from_str("No connected device found"),
            ),
            save_config: false,
        };
    }

    let dev: String = match &req.device {
        Some(d) => d.clone(),
        None => String::new(),
    };

    let address = match cd.get_device_address(&dev, config) {
        Some(a) => a,
        None => {
            return RequestOutcome::Respond {
                response: Response::new_error(
                    String::new(),
                    String::from_str("Device not found"),
                ),
                save_config: false,
            };
        },
    };

    if utils::chars_eq_lit(&cmd_chars, "get_status") {
        proof {
            assert(req.cmd@ == "get_status"@);
            assert("get_status"@.len() == 10);
            assert("set_value"@.len() == 9);
            assert("get_status"@[0] == 'g' && "disconnect"@[0] == 'd' && "connect"@[0] == 'c');
            assert(req.cmd@ != "set_value"@);
            assert(req.cmd@ != "toggle_value"@);
            assert(req.cmd@ != "connect"@);
            assert(req.cmd@ != "disconnect"@);
        }
        let pos = match cd.get_device_pos(&address) {
            Some(p) => p,
            None => {
                return RequestOutcome::Respond {
                    response: Response::new_error(
                        String::new(),
                        String::from_str("Device not found"),
                    ),
                    save_config: false,
                };
            },
        };
        let snapshot = cd.data[pos].clone_record().inner;
        return RequestOutcome::Respond {
            response: Response::new_success(address, Some(snapshot)),
            save_config: false,
        };
    }

    if utils::chars_eq_lit(&cmd_chars, "set_value") || utils::chars_eq_lit(
        &cmd_chars,
        "toggle_value",
    ) {
        let toggling = utils::chars_eq_lit(&cmd_chars, "toggle_value");
        proof {
            assert(req.cmd@ == "set_value"@ || req.cmd@ == "toggle_value"@);
            assert("set_value"@.len() == 9 && "toggle_value"@.len() == 12);
            assert("connect"@.len() == 7 && "disconnect"@.len() == 10);
            assert(req.cmd@ != "connect"@ && req.cmd@ != "disconnect"@);
        }
        let pos = match cd.get_device_pos(&address) {
            Some(p) => p,
            None => {
                return RequestOutcome::Respond {
                    response: Response::new_error(
                        String::new(),
                        String::from_str("Device not found"),
                    ),
                    save_config: false,
                };
            },
        };
        let p1 = match &req.opt_param1 {
            Some(p) => p,
            None => {
                return RequestOutcome::Respond {
                    response: Response::new_error(
                        String::new(),
                        String::from_str("Missing parameter"),
                    ),
                    save_config: false,
                };
            },
        };
        let result = if toggling {
            toggle_buds_option(p1, &req.opt_param3, &cd.data[pos])
        } else {
            match &req.opt_param2 {
                Some(p2) => set_buds_option(p1, p2, &req.opt_param3, &cd.data[pos]),
                None => {
                    return RequestOutcome::Respond {
                        response: Response::new_error(
                            String::new(),
                            String::from_str("Missing parameter"),
                        ),
                        save_config: false,
                    };
                },
            }
        };
        return match result {
            Ok(steps) => RequestOutcome::DeviceCommand { pos, address, steps },
            Err(e) => RequestOutcome::Respond {
                response: Response::new_error(String::new(), e.message()),
                save_config: false,
            },
        };
    }

    if utils::chars_eq_lit(&cmd_chars, "set_config") {
        proof {
            assert("set_config"@[0] == 's' && "disconnect"@[0] == 'd');
            assert("connect"@.len() == 7 && "set_config"@.len() == 10);
            assert(req.cmd@ != "connect"@ && req.cmd@ != "disconnect"@);
        }
        let (response, save_config) = set_config_value(req, address, config);
        return RequestOutcome::Respond { response, save_config };
    }

    if is_connect || utils::chars_eq_lit(&cmd_chars, "disconnect") {
        return RequestOutcome::ChangeConnection { address, connect: is_connect };
    }

    RequestOutcome::Ignore
}

} // verus!

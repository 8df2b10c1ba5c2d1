//! The device session's message engine: frame one buffer read from the
//! stream, validate it, dispatch by message id, and decide the side
//! effects. The read loop itself, being stream I/O, lives with the caller;
//! every decision it needs stands here.

use vstd::prelude::*;

use crate::buds_config::BudsConfig;
use crate::buds_info::{BudsInfo, BudsInfoInner};
use crate::codec::{decode_frame, frame_structurally_valid, spec_decode, structural_ok};
use crate::gesture;
use crate::messages;
use crate::messages::{ExtendedStatusUpdate, StatusUpdate};
use crate::model::Model;
use crate::policy;
use crate::policy::{FallbackDecision, MusicDecision};

verus! {

/// Seconds between two debug telemetry requests.
pub const DEBUG_POLL_SECS: u64 = 8;

/// How the codec judged one buffer.
#[derive(Debug, Clone, Copy, PartialEq, Eq, Structural)]
pub enum FrameStage {
    /// Not the shape of a frame at all.
    NotAMessage,
    /// A frame whose declared checksum does not match.
    CrcFailed,
    /// A structurally sound frame with a matching checksum.
    Valid,
}

/// The battery levels a notification reports.
#[derive(Debug, Clone, Copy, PartialEq, Eq, Structural)]
pub struct BatteryLevels {
    pub left: i8,
    pub right: i8,
}

/// Everything one buffer obliges the session to do. Fields that stand for
/// outbound messages are flags; the message bytes come from the builders in
/// [`crate::messages`].
#[derive(Debug, Clone, Copy, PartialEq, Eq, Structural)]
pub struct DispatchOutcome {
    pub stage: FrameStage,
    /// Log a checksum warning — except for the session's first message,
    /// which is known to always fail validation.
    pub crc_warning: bool,
    pub new_first_msg: bool,
    pub new_requested_debug: bool,
    /// Answer an extended status report with the manager-information
    /// message.
    pub send_manager_ack: bool,
    pub music: MusicDecision,
    pub make_sink_default: bool,
    pub fallback: FallbackDecision,
    /// Raise a low-battery notification with these levels.
    pub notify_low_battery: Option<BatteryLevels>,
    /// The gesture machine asks to disconnect the device.
    pub disconnect: bool,
    /// Send a debug telemetry request.
    pub send_debug_request: bool,
}

/// An outcome that asks for nothing.
pub open spec fn quiet_outcome(out: DispatchOutcome) -> bool {
    &&& !out.crc_warning
    &&& !out.send_manager_ack
    &&& out.music == (MusicDecision { resume: false, pause: false })
    &&& !out.make_sink_default
    &&& out.fallback == (FallbackDecision { switch_sink: false, resume: false })
    &&& out.notify_low_battery is None
    &&& !out.disconnect
    &&& !out.send_debug_request
}

/// A status update's battery levels and placements written into a record.
pub open spec fn apply_status_fields(inner: BudsInfoInner, u: StatusUpdate) -> BudsInfoInner {
    BudsInfoInner {
        batt_left: u.battery_left,
        batt_right: u.battery_right,
        batt_case: u.battery_case,
        placement_left: u.placement_left,
        placement_right: u.placement_right,
        ..inner
    }
}

/// An extended status report written into a record: the device becomes
/// ready, and the ambient-sound block applies only where the model reports
/// it this way.
pub open spec fn apply_extended_fields(inner: BudsInfoInner, u: ExtendedStatusUpdate) -> BudsInfoInner {
    let base = BudsInfoInner {
        ready: true,
        batt_left: u.battery_left,
        batt_right: u.battery_right,
        batt_case: u.battery_case,
        placement_left: u.placement_left,
        placement_right: u.placement_right,
        equalizer_type: u.equalizer_type,
        touchpads_blocked: u.touchpads_blocked,
        noise_reduction: u.noise_reduction,
        touchpad_option_left: u.touchpad_option_left,
        touchpad_option_right: u.touchpad_option_right,
        ..inner
    };
    if inner.model == Model::BudsPlus {
        BudsInfoInner {
            ambient_sound_volume: u.ambient_sound_volume,
            ambient_sound_enabled: u.ambient_sound_enabled,
            extra_high_ambient_volume: u.extra_high_ambient,
            ..base
        }
    } else {
        base
    }
}

/// The full effect of one status update under the device's settings: what
/// each policy rule decides and what the record becomes. Components: the
/// new record, the music decision, whether to make the earbuds the default
/// sink, the fallback decision, and the notification levels.
pub open spec fn status_transition(
    info: BudsInfo,
    u: StatusUpdate,
    cfg: Option<BudsConfig>,
    gate: Option<bool>,
) -> (BudsInfo, MusicDecision, bool, FallbackDecision, Option<BatteryLevels>) {
    let music_on = cfg is Some && (cfg->Some_0.spec_auto_play() || cfg->Some_0.spec_auto_pause()
        || cfg->Some_0.spec_smart_sink());
    let resume = music_on && policy::spec_resume_fires(
        info.inner.placement_left,
        info.inner.placement_right,
        u.placement_left,
        u.placement_right,
        cfg->Some_0.spec_auto_play(),
        info.inner.paused_music_earlier,
        gate,
    );
    let pause = music_on && policy::spec_pause_fires(
        info.inner.placement_left,
        info.inner.placement_right,
        u.placement_left,
        u.placement_right,
        cfg->Some_0.spec_auto_pause(),
        gate,
    );
    let make_default = music_on && policy::spec_make_default_fires(
        info.inner.placement_left,
        info.inner.placement_right,
        u.placement_left,
        u.placement_right,
        cfg->Some_0.spec_smart_sink(),
        gate,
    );
    let paused1 = info.inner.paused_music_earlier && !resume;
    let batt_on = cfg is Some && cfg->Some_0.spec_low_battery_notification();
    let notify = batt_on && policy::spec_low_battery_fires(
        info.inner.did_battery_notify,
        u.battery_left as int,
        u.battery_right as int,
    );
    let flag1 = if batt_on {
        policy::spec_low_battery_next_flag(
            info.inner.did_battery_notify,
            u.battery_left as int,
            u.battery_right as int,
        )
    } else {
        info.inner.did_battery_notify
    };
    let sink_on = cfg is Some && cfg->Some_0.spec_smart_sink();
    let fb_fires = sink_on && policy::spec_fallback_fires(
        info.inner.placement_left,
        info.inner.placement_right,
        u.placement_left,
        u.placement_right,
        cfg->Some_0.spec_smart_sink(),
        gate,
    );
    let fb_resume = fb_fires && paused1;
    let paused2 = paused1 && !fb_resume;
    let new_inner = apply_status_fields(
        BudsInfoInner { paused_music_earlier: paused2, did_battery_notify: flag1, ..info.inner },
        u,
    );
    (
        BudsInfo { inner: new_inner, ..info },
        MusicDecision { resume, pause },
        make_default,
        FallbackDecision { switch_sink: fb_fires, resume: fb_resume },
        if notify {
            Some(BatteryLevels { left: u.battery_left, right: u.battery_right })
        } else {
            None
        },
    )
}

/// The effect of one touchpad event: the new record and the disconnect
/// decision.
pub open spec fn touchpad_transition(
    info: BudsInfo,
    t: messages::TouchAction,
    cfg: Option<BudsConfig>,
    now: u64,
) -> (BudsInfo, bool) {
    let early = gesture::spec_early_exit(
        info.inner.touchpads_blocked,
        info.inner.touchpad_option_left,
        info.inner.touchpad_option_right,
        t.side,
        cfg,
    );
    if t.touch_count != gesture::HOLD_TOUCH_COUNT || early {
        (info, false)
    } else if !info.inner.touchpads_blocked {
        (BudsInfo { left_tp_hold_count: 0, right_tp_hold_count: 0, ..info }, true)
    } else {
        let (l, r, last, fire) = gesture::gesture_step(
            info.left_tp_hold_count,
            info.right_tp_hold_count,
            info.last_tp_update,
            t.side,
            now,
            gesture::REQUIRED_TAP_DURATION,
        );
        (
            BudsInfo { left_tp_hold_count: l, right_tp_hold_count: r, last_tp_update: last, ..info },
            fire,
        )
    }
}

/// The record change a valid frame causes, before the debug-poll check.
pub open spec fn frame_effect(
    info: BudsInfo,
    id: u8,
    payload: Seq<u8>,
    cfg: Option<BudsConfig>,
    gate: Option<bool>,
    now: u64,
) -> BudsInfo {
    if id == messages::STATUS_UPDATED {
        match messages::spec_decode_status(payload) {
            Some(u) => status_transition(info, u, cfg, gate).0,
            None => info,
        }
    } else if id == messages::EXTENDED_STATUS_UPDATED {
        match messages::spec_decode_extended(payload, info.inner.model) {
            Some(u) => BudsInfo { inner: apply_extended_fields(info.inner, u), ..info },
            None => info,
        }
    } else if id == messages::TOUCHPAD_ACTION {
        match messages::spec_decode_touch_action(payload) {
            Some(t) => touchpad_transition(info, t, cfg, now).0,
            None => info,
        }
    } else if id == messages::DEBUG_GET_ALL_DATA {
        match messages::spec_decode_debug(payload, info.inner.model) {
            Some(d) => BudsInfo { inner: BudsInfoInner { debug: d, ..info.inner }, ..info },
            None => info,
        }
    } else if id == messages::AMBIENT_MODE_UPDATED {
        match messages::spec_decode_flag(payload) {
            Some(f) => BudsInfo {
                inner: BudsInfoInner { ambient_sound_enabled: f, ..info.inner },
                ..info
            },
            None => info,
        }
    } else if id == messages::NOISE_REDUCTION_MODE_UPDATE {
        match messages::spec_decode_flag(payload) {
            Some(f) => BudsInfo {
                inner: BudsInfoInner { noise_reduction: f, ..info.inner },
                ..info
            },
            None => info,
        }
    } else {
        info
    }
}

/// Whether the debug-poll timer asks for a telemetry request.
pub open spec fn debug_poll_due(info: BudsInfo, requested_debug: bool, now: u64) -> bool {
    !requested_debug || gesture::spec_elapsed(now, info.last_debug) >= DEBUG_POLL_SECS
}

/// The whole contract of [`dispatch`], relating the record before and
/// after one buffer to the decided outcome.
pub open spec fn dispatch_post(
    pre: BudsInfo,
    post: BudsInfo,
    out: DispatchOutcome,
    buffer: Seq<u8>,
    first_msg: bool,
    requested_debug: bool,
    cfg: Option<BudsConfig>,
    gate: Option<bool>,
    now: u64,
) -> bool {
    if !structural_ok(buffer) {
        // Not a message: nothing changes, and the next frame counts as a
        // session's first again.
        &&& out.stage == FrameStage::NotAMessage
        &&& post == pre
        &&& out.new_first_msg
        &&& out.new_requested_debug == requested_debug
        &&& quiet_outcome(out)
    } else if spec_decode(buffer) is None {
        // Checksum mismatch: the message is dropped, with a warning unless
        // it was the session's first.
        &&& out.stage == FrameStage::CrcFailed
        &&& post == pre
        &&& out.crc_warning == !first_msg
        &&& !out.new_first_msg
        &&& out.new_requested_debug == requested_debug
        &&& !out.send_manager_ack
        &&& out.music == (MusicDecision { resume: false, pause: false })
        &&& !out.make_sink_default
        &&& out.fallback == (FallbackDecision { switch_sink: false, resume: false })
        &&& out.notify_low_battery is None
        &&& !out.disconnect
        &&& !out.send_debug_request
    } else {
        let id = spec_decode(buffer)->Some_0.0;
        let payload = spec_decode(buffer)->Some_0.1;
        let stepped = frame_effect(pre, id, payload, cfg, gate, now);
        &&& out.stage == FrameStage::Valid
        &&& !out.crc_warning
        &&& !out.new_first_msg
        &&& out.new_requested_debug
        &&& out.send_debug_request == debug_poll_due(stepped, requested_debug, now)
        &&& post == (BudsInfo {
            last_debug: if out.send_debug_request {
                now
            } else {
                stepped.last_debug
            },
            ..stepped
        })
        &&& out.send_manager_ack == (id == messages::EXTENDED_STATUS_UPDATED
            && messages::spec_decode_extended(payload, pre.inner.model) is Some)
        &&& out.disconnect == (id == messages::TOUCHPAD_ACTION
            && match messages::spec_decode_touch_action(payload) {
            Some(t) => touchpad_transition(pre, t, cfg, now).1,
            None => false,
        })
        &&& (id == messages::STATUS_UPDATED
            && messages::spec_decode_status(payload) is Some) ==> {
            let u = messages::spec_decode_status(payload)->Some_0;
            let tr = status_transition(pre, u, cfg, gate);
            &&& out.music == tr.1
            &&& out.make_sink_default == tr.2
            &&& out.fallback == tr.3
            &&& out.notify_low_battery == tr.4
        }
        &&& !(id == messages::STATUS_UPDATED && messages::spec_decode_status(payload) is Some)
            ==> {
            &&& out.music == (MusicDecision { resume: false, pause: false })
            &&& !out.make_sink_default
            &&& out.fallback == (FallbackDecision { switch_sink: false, resume: false })
            &&& out.notify_low_battery is None
        }
    }
}

/// Frame, validate and dispatch one buffer freshly read from the stream.
/// A buffer that is no message, or whose checksum fails, leaves the record
/// untouched and asks for nothing — the checksum warning aside.
#[verifier::rlimit(60)]
pub fn dispatch(
    info: &mut BudsInfo,
    buffer: &[u8],
    first_msg: bool,
    requested_debug: bool,
    cfg: Option<&BudsConfig>,
    is_default_sink: Option<bool>,
    now: u64,
) -> (r: DispatchOutcome)
    ensures
        dispatch_post(
            *old(info),
            *final(info),
            r,
            buffer@,
            first_msg,
            requested_debug,
            match cfg {
                Some(c) => Some(*c),
                None => None,
            },
            is_default_sink,
            now,
        ),
{
    let mut out = DispatchOutcome {
        stage: FrameStage::NotAMessage,
        crc_warning: false,
        new_first_msg: true,
        new_requested_debug: requested_debug,
        send_manager_ack: false,
        music: MusicDecision { resume: false, pause: false },
        make_sink_default: false,
        fallback: FallbackDecision { switch_sink: false, resume: false },
        notify_low_battery: None,
        disconnect: false,
        send_debug_request: false,
    };

    if !frame_structurally_valid(buffer) {
        return out;
    }

    let frame = match decode_frame(buffer) {
        Some(f) => f,
        None => {
            out.stage = FrameStage::CrcFailed;
            out.crc_warning = !first_msg;
            out.new_first_msg = false;
            return out;
        },
    };

    out.stage = FrameStage::Valid;
    out.new_first_msg = false;
    out.new_requested_debug = true;

    if frame.id == messages::STATUS_UPDATED {
        if let Some(u) = messages::decode_status(frame.payload.as_slice()) {
            let (music, make_default, fallback, notify) = run_status_update(
                info,
                &u,
                cfg,
                is_default_sink,
            );
            out.music = music;
            out.make_sink_default = make_default;
            out.fallback = fallback;
            out.notify_low_battery = notify;
        }
    } else if frame.id == messages::EXTENDED_STATUS_UPDATED {
        if let Some(u) = messages::decode_extended(frame.payload.as_slice(), info.inner.model) {
            update_extended_status(&u, info);
            out.send_manager_ack = true;
        }
    } else if frame.id == messages::TOUCHPAD_ACTION {
        if let Some(t) = messages::decode_touch_action(frame.payload.as_slice()) {
            out.disconnect = gesture::handle(
                t.side,
                t.touch_count,
                info,
                cfg,
                now,
                gesture::REQUIRED_TAP_DURATION,
            );
        }
    } else if frame.id == messages::DEBUG_GET_ALL_DATA {
        if let Some(d) = messages::decode_debug(frame.payload.as_slice(), info.inner.model) {
            info.inner.debug = d;
        }
    } else if frame.id == messages::AMBIENT_MODE_UPDATED {
        if let Some(f) = messages::decode_ambient_updated(frame.payload.as_slice()) {
            info.inner.ambient_sound_enabled = f;
        }
    } else if frame.id == messages::NOISE_REDUCTION_MODE_UPDATE {
        if let Some(f) = messages::decode_anc_updated(frame.payload.as_slice()) {
            info.inner.noise_reduction = f;
        }
    }

    // Poll debug telemetry at a fixed interval, and once right after the
    // session's first processed message.
    let elapsed: u64 = if now >= info.last_debug {
        now - info.last_debug
    } else {
        0
    };
    if !requested_debug || elapsed >= DEBUG_POLL_SECS {
        out.send_debug_request = true;
        info.last_debug = now;
    }

    out
}

/// Run every policy rule against one status update, then copy its fields
/// into the record.
#[verifier::rlimit(100)]
fn run_status_update(
    info: &mut BudsInfo,
    u: &StatusUpdate,
    cfg: Option<&BudsConfig>,
    gate: Option<bool>,
) -> (r: (MusicDecision, bool, FallbackDecision, Option<BatteryLevels>))
    ensures
        ({
            let tr = status_transition(
                *old(info),
                *u,
                match cfg {
                    Some(c) => Some(*c),
                    None => None,
                },
                gate,
            );
            &&& *final(info) == tr.0
            &&& r.0 == tr.1
            &&& r.1 == tr.2
            &&& r.2 == tr.3
            &&& r.3 == tr.4
        }),
{
    let mut music = MusicDecision { resume: false, pause: false };
    let mut make_default = false;
    let mut fallback = FallbackDecision { switch_sink: false, resume: false };
    let mut notify: Option<BatteryLevels> = None;

    if let Some(c) = cfg {
        if c.auto_play() || c.auto_pause() || c.smart_sink() {
            make_default = policy::make_sink_default_decision(u, info, c, gate);
            music = policy::handle_auto_music(u, info, c, gate);
        }
        if c.low_battery_notification() {
            if policy::handle_low_battery(u, info) {
                notify = Some(BatteryLevels { left: u.battery_left, right: u.battery_right });
            }
        }
        if c.smart_sink() {
            fallback = policy::fallback_to_sink(info, u, c, gate);
        }
    }
    policy::update_status(u, info);
    (music, make_default, fallback, notify)
}

/// Copy an extended status report into the record; the first one makes the
/// device ready.
pub fn update_extended_status(u: &ExtendedStatusUpdate, info: &mut BudsInfo)
    ensures
        final(info).inner == apply_extended_fields(old(info).inner, *u),
        final(info).last_debug == old(info).last_debug,
        final(info).left_tp_hold_count == old(info).left_tp_hold_count,
        final(info).right_tp_hold_count == old(info).right_tp_hold_count,
        final(info).last_tp_update == old(info).last_tp_update,
{
    info.inner.ready = true;
    info.inner.batt_left = u.battery_left;
    info.inner.batt_right = u.battery_right;
    info.inner.batt_case = u.battery_case;
    info.inner.placement_left = u.placement_left;
    info.inner.placement_right = u.placement_right;
    info.inner.equalizer_type = u.equalizer_type;
    info.inner.touchpads_blocked = u.touchpads_blocked;
    info.inner.noise_reduction = u.noise_reduction;
    info.inner.touchpad_option_left = u.touchpad_option_left;
    info.inner.touchpad_option_right = u.touchpad_option_right;
    if matches!(info.inner.model, Model::BudsPlus) {
        info.inner.ambient_sound_volume = u.ambient_sound_volume;
        info.inner.ambient_sound_enabled = u.ambient_sound_enabled;
        info.inner.extra_high_ambient_volume = u.extra_high_ambient;
    }
}

} // verus!

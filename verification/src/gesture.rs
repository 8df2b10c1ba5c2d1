//! The hold-to-disconnect gesture: a multi-finger hold on both touchpads,
//! counted per side, disconnects the device once both counters reach the
//! threshold.

use vstd::prelude::*;

use crate::buds_config::BudsConfig;
use crate::buds_info::BudsInfo;
use crate::properties::{Side, TouchpadOption};

verus! {

/// How often each side must report the hold gesture before the device is
/// disconnected.
pub const REQUIRED_TAP_DURATION: u8 = 2;

/// The touch count the firmware reports for the hold gesture.
pub const HOLD_TOUCH_COUNT: u8 = 7;

/// Counters idle longer than this many seconds start over.
pub const GESTURE_IDLE_RESET_SECS: u64 = 5;

/// Counters whose sum passes this ceiling start over, so a runaway event
/// stream cannot grow them without bound.
pub const GESTURE_SUM_CEILING: u16 = 20;

/// Whether the event is dropped without touching any state. With blocked
/// touchpads the gesture runs only for devices whose settings enable
/// hold-to-disconnect; with unblocked touchpads only when the reporting
/// side's hold action is set to disconnect.
pub open spec fn spec_early_exit(
    blocked: bool,
    opt_left: TouchpadOption,
    opt_right: TouchpadOption,
    side: Side,
    cfg: Option<BudsConfig>,
) -> bool {
    if blocked {
        match cfg {
            None => true,
            Some(c) => !c.spec_hold_to_disconnect(),
        }
    } else {
        (match side {
            Side::Left => opt_left,
            Side::Right => opt_right,
        }) != TouchpadOption::Disconnect
    }
}

/// Seconds elapsed since the counters last moved; a clock that went
/// backwards counts as no time passed.
pub open spec fn spec_elapsed(now: u64, last: u64) -> u64 {
    if now >= last {
        (now - last) as u64
    } else {
        0u64
    }
}

/// One counting step of the gesture machine, for a qualifying event on
/// blocked touchpads: `(left, right, last)` become the returned triple and
/// the fourth component says whether to disconnect.
pub open spec fn gesture_step(
    left: u8,
    right: u8,
    last: u64,
    side: Side,
    now: u64,
    threshold: u8,
) -> (u8, u8, u64, bool) {
    let reset_first = spec_elapsed(now, last) > GESTURE_IDLE_RESET_SECS || left as u16
        + right as u16 > GESTURE_SUM_CEILING;
    let base_l: u8 = if reset_first {
        0u8
    } else {
        left
    };
    let base_r: u8 = if reset_first {
        0u8
    } else {
        right
    };
    let new_l: u8 = if side == Side::Left {
        (base_l + 1) as u8
    } else {
        base_l
    };
    let new_r: u8 = if side == Side::Right {
        (base_r + 1) as u8
    } else {
        base_r
    };
    let fire = new_l >= threshold && new_r >= threshold;
    if fire {
        (0u8, 0u8, now, true)
    } else {
        (new_l, new_r, now, false)
    }
}

/// Feed one touchpad event to the gesture machine. Returns true when the
/// session should disconnect the device. The device's settings are handed
/// in as read through this iteration, `now` in whole seconds.
pub fn handle(
    side: Side,
    touch_count: u8,
    info: &mut BudsInfo,
    cfg: Option<&BudsConfig>,
    now: u64,
    threshold: u8,
) -> (r: bool)
    ensures
        final(info).inner == old(info).inner,
        final(info).last_debug == old(info).last_debug,
        ({
            let early = spec_early_exit(
                old(info).inner.touchpads_blocked,
                old(info).inner.touchpad_option_left,
                old(info).inner.touchpad_option_right,
                side,
                match cfg {
                    Some(c) => Some(*c),
                    None => None,
                },
            );
            if touch_count != HOLD_TOUCH_COUNT || early {
                &&& r == false
                &&& *final(info) == *old(info)
            } else if !old(info).inner.touchpads_blocked {
                &&& r == true
                &&& final(info).left_tp_hold_count == 0
                &&& final(info).right_tp_hold_count == 0
                &&& final(info).last_tp_update == old(info).last_tp_update
            } else {
                let (l, rr, last, fire) = gesture_step(
                    old(info).left_tp_hold_count,
                    old(info).right_tp_hold_count,
                    old(info).last_tp_update,
                    side,
                    now,
                    threshold,
                );
                &&& r == fire
                &&& final(info).left_tp_hold_count == l
                &&& final(info).right_tp_hold_count == rr
                &&& final(info).last_tp_update == last
            }
        }),
{
    let early_exit: bool;
    if info.inner.touchpads_blocked {
        early_exit = match cfg {
            None => true,
            Some(c) => !c.hold_to_disconnect(),
        };
    } else {
        early_exit = (match side {
            Side::Left => info.inner.touchpad_option_left,
            Side::Right => info.inner.touchpad_option_right,
        }) != TouchpadOption::Disconnect;
    }

    if touch_count != HOLD_TOUCH_COUNT || early_exit {
        return false;
    }

    // With the hold action set to disconnect and touchpads enabled, one
    // event suffices.
    if !info.inner.touchpads_blocked {
        info.reset_last_tp_update();
        return true;
    }

    let elapsed: u64 = if now >= info.last_tp_update {
        now - info.last_tp_update
    } else {
        0
    };
    if elapsed > GESTURE_IDLE_RESET_SECS || info.left_tp_hold_count as u16
        + info.right_tp_hold_count as u16 > GESTURE_SUM_CEILING {
        info.reset_last_tp_update();
    }

    match side {
        Side::Left => {
            info.left_tp_hold_count += 1;
        },
        Side::Right => {
            info.right_tp_hold_count += 1;
        },
    }
    info.last_tp_update = now;

    if info.left_tp_hold_count >= threshold && info.right_tp_hold_count >= threshold {
        info.reset_last_tp_update();
        return true;
    }
    false
}

/// Law: with threshold two, four qualifying hold events that alternate
/// sides, each following the last within the idle window, yield exactly one
/// disconnect — on the event that completes the threshold — and leave both
/// counters at zero.
pub proof fn lemma_gesture_alternating(t0: u64, t1: u64, t2: u64, t3: u64, t4: u64)
    requires
        t0 <= t1 <= t2 <= t3 <= t4,
        t1 - t0 <= GESTURE_IDLE_RESET_SECS,
        t2 - t1 <= GESTURE_IDLE_RESET_SECS,
        t3 - t2 <= GESTURE_IDLE_RESET_SECS,
        t4 - t3 <= GESTURE_IDLE_RESET_SECS,
    ensures
        ({
            let s1 = gesture_step(0, 0, t0, Side::Left, t1, REQUIRED_TAP_DURATION);
            let s2 = gesture_step(s1.0, s1.1, s1.2, Side::Right, t2, REQUIRED_TAP_DURATION);
            let s3 = gesture_step(s2.0, s2.1, s2.2, Side::Left, t3, REQUIRED_TAP_DURATION);
            let s4 = gesture_step(s3.0, s3.1, s3.2, Side::Right, t4, REQUIRED_TAP_DURATION);
            &&& !s1.3 && !s2.3 && !s3.3
            &&& s4.3
            &&& s4.0 == 0 && s4.1 == 0
        }),
{
}

} // verus!

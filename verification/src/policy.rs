//! The wear-state automation rules: resume or pause playback on wearing
//! edges, switch the default audio sink, and raise a low-battery
//! notification — each as a decision over the previous and the new status.

use vstd::prelude::*;

use crate::buds_config::BudsConfig;
use crate::buds_info::BudsInfo;
use crate::messages::StatusUpdate;
use crate::properties::Placement;

verus! {

/// Both earbuds are worn.
pub open spec fn spec_is_wearing(left: Placement, right: Placement) -> bool {
    left == Placement::Ear && right == Placement::Ear
}

/// At least one earbud is worn.
pub open spec fn spec_is_some_wearing(left: Placement, right: Placement) -> bool {
    left == Placement::Ear || right == Placement::Ear
}

/// Both earbuds rest in the opened case.
pub open spec fn spec_is_placed(left: Placement, right: Placement) -> bool {
    left == Placement::InOpenCase && right == Placement::InOpenCase
}

pub fn is_wearing_state(left: Placement, right: Placement) -> (r: bool)
    ensures
        r == spec_is_wearing(left, right),
{
    left == Placement::Ear && right == Placement::Ear
}

pub fn is_some_wearing_state(left: Placement, right: Placement) -> (r: bool)
    ensures
        r == spec_is_some_wearing(left, right),
{
    left == Placement::Ear || right == Placement::Ear
}

pub fn is_placed_state(left: Placement, right: Placement) -> (r: bool)
    ensures
        r == spec_is_placed(left, right),
{
    left == Placement::InOpenCase && right == Placement::InOpenCase
}

/// What the session knows of the audio sink when a rule runs: whether the
/// earbuds are the default output device, or `None` where that cannot be
/// asked. Rules that play or pause proceed unless the answer is a definite
/// no.
pub open spec fn spec_gate_allows(is_default_sink: Option<bool>) -> bool {
    is_default_sink != Some(false)
}

/// The resume rule fires on a wearing edge, when resuming is enabled, the
/// gate allows it, and this engine paused the music earlier.
pub open spec fn spec_resume_fires(
    old_left: Placement,
    old_right: Placement,
    new_left: Placement,
    new_right: Placement,
    auto_play: bool,
    paused_earlier: bool,
    is_default_sink: Option<bool>,
) -> bool {
    &&& !spec_is_wearing(old_left, old_right)
    &&& spec_is_wearing(new_left, new_right)
    &&& spec_gate_allows(is_default_sink)
    &&& auto_play
    &&& paused_earlier
}

/// The pause rule fires on the opposite edge: some earbud was worn and now
/// none is.
pub open spec fn spec_pause_fires(
    old_left: Placement,
    old_right: Placement,
    new_left: Placement,
    new_right: Placement,
    auto_pause: bool,
    is_default_sink: Option<bool>,
) -> bool {
    &&& spec_is_some_wearing(old_left, old_right)
    &&& !spec_is_some_wearing(new_left, new_right)
    &&& spec_gate_allows(is_default_sink)
    &&& auto_pause
}

/// What the music rules decided for one status update.
#[derive(Debug, Clone, Copy, PartialEq, Eq, Structural)]
pub struct MusicDecision {
    pub resume: bool,
    pub pause: bool,
}

/// Run the resume and pause rules against a status update. Clears the
/// "paused by us" flag when resuming; a decided pause is reported back
/// through [`record_pause_result`] once the player answered, since the flag
/// is set only when the pause succeeded. Placements on `info` are the
/// previous ones and stay untouched here.
pub fn handle_auto_music(
    update: &StatusUpdate,
    info: &mut BudsInfo,
    config: &BudsConfig,
    is_default_sink: Option<bool>,
) -> (r: MusicDecision)
    ensures
        r.resume == spec_resume_fires(
            old(info).inner.placement_left,
            old(info).inner.placement_right,
            update.placement_left,
            update.placement_right,
            config.spec_auto_play(),
            old(info).inner.paused_music_earlier,
            is_default_sink,
        ),
        r.pause == spec_pause_fires(
            old(info).inner.placement_left,
            old(info).inner.placement_right,
            update.placement_left,
            update.placement_right,
            config.spec_auto_pause(),
            is_default_sink,
        ),
        final(info).inner.paused_music_earlier == (old(info).inner.paused_music_earlier
            && !r.resume),
        final(info).inner == (crate::buds_info::BudsInfoInner {
            paused_music_earlier: final(info).inner.paused_music_earlier,
            ..old(info).inner
        }),
        final(info).last_debug == old(info).last_debug,
        final(info).left_tp_hold_count == old(info).left_tp_hold_count,
        final(info).right_tp_hold_count == old(info).right_tp_hold_count,
        final(info).last_tp_update == old(info).last_tp_update,
{
    let is_wearing = is_wearing_state(update.placement_left, update.placement_right);
    let was_wearing = is_wearing_state(info.inner.placement_left, info.inner.placement_right);
    let was_some_wearing = is_some_wearing_state(
        info.inner.placement_left,
        info.inner.placement_right,
    );
    let is_some_wearing = is_some_wearing_state(update.placement_left, update.placement_right);

    let gate_allows = !matches!(is_default_sink, Some(false));

    let mut decision = MusicDecision { resume: false, pause: false };

    if !was_wearing && is_wearing {
        if gate_allows && config.auto_play() && info.inner.paused_music_earlier {
            decision.resume = true;
            info.inner.paused_music_earlier = false;
        }
    } else if !is_some_wearing && was_some_wearing {
        if gate_allows && config.auto_pause() {
            decision.pause = true;
        }
    }
    decision
}

/// Record whether a decided pause went through: only a successful pause may
/// later be undone by the resume rule.
pub fn record_pause_result(info: &mut BudsInfo, pause_succeeded: bool)
    ensures
        final(info).inner.paused_music_earlier == (old(info).inner.paused_music_earlier
            || pause_succeeded),
        final(info).inner == (crate::buds_info::BudsInfoInner {
            paused_music_earlier: final(info).inner.paused_music_earlier,
            ..old(info).inner
        }),
        final(info).last_debug == old(info).last_debug,
        final(info).left_tp_hold_count == old(info).left_tp_hold_count,
        final(info).right_tp_hold_count == old(info).right_tp_hold_count,
        final(info).last_tp_update == old(info).last_tp_update,
{
    if pause_succeeded {
        info.inner.paused_music_earlier = true;
    }
}

/// The low-battery rule fires when no reset applies, no notification is
/// outstanding, and the left level is under twenty — or the right is under
/// twenty while both levels are positive.
pub open spec fn spec_low_battery_fires(flag: bool, l: int, r: int) -> bool {
    &&& !(l > 30 && r > 30 && flag)
    &&& !flag
    &&& (l < 20 || (r < 20 && l * r > 0))
}

/// The notification flag after one battery report.
pub open spec fn spec_low_battery_next_flag(flag: bool, l: int, r: int) -> bool {
    if l > 30 && r > 30 && flag {
        false
    } else if flag {
        true
    } else {
        l < 20 || (r < 20 && l * r > 0)
    }
}

/// Run the low-battery rule; returns whether to raise a notification.
pub fn handle_low_battery(update: &StatusUpdate, info: &mut BudsInfo) -> (r: bool)
    ensures
        r == spec_low_battery_fires(
            old(info).inner.did_battery_notify,
            update.battery_left as int,
            update.battery_right as int,
        ),
        final(info).inner.did_battery_notify == spec_low_battery_next_flag(
            old(info).inner.did_battery_notify,
            update.battery_left as int,
            update.battery_right as int,
        ),
        final(info).inner == (crate::buds_info::BudsInfoInner {
            did_battery_notify: final(info).inner.did_battery_notify,
            ..old(info).inner
        }),
        final(info).last_debug == old(info).last_debug,
        final(info).left_tp_hold_count == old(info).left_tp_hold_count,
        final(info).right_tp_hold_count == old(info).right_tp_hold_count,
        final(info).last_tp_update == old(info).last_tp_update,
{
    let l_batt = update.battery_left;
    let r_batt = update.battery_right;

    if l_batt > 30 && r_batt > 30 && info.inner.did_battery_notify {
        info.inner.did_battery_notify = false;
        return false;
    }

    if info.inner.did_battery_notify {
        return false;
    }

    let positive_product = (l_batt > 0 && r_batt > 0) || (l_batt < 0 && r_batt < 0);
    proof {
        assert(((l_batt > 0 && r_batt > 0) || (l_batt < 0 && r_batt < 0)) == (l_batt as int
            * r_batt as int > 0)) by (nonlinear_arith);
    }
    if l_batt < 20 || (r_batt < 20 && positive_product) {
        info.inner.did_battery_notify = true;
        return true;
    }
    false
}

/// The smart-sink rule makes the earbuds the default output on a wearing
/// edge, when they are known not to be the default yet.
pub open spec fn spec_make_default_fires(
    old_left: Placement,
    old_right: Placement,
    new_left: Placement,
    new_right: Placement,
    smart_sink: bool,
    is_default_sink: Option<bool>,
) -> bool {
    &&& !spec_is_wearing(old_left, old_right)
    &&& spec_is_wearing(new_left, new_right)
    &&& smart_sink
    &&& is_default_sink == Some(false)
}

/// Whether to make the earbuds the default sink for this update.
pub fn make_sink_default_decision(
    update: &StatusUpdate,
    info: &BudsInfo,
    config: &BudsConfig,
    is_default_sink: Option<bool>,
) -> (r: bool)
    ensures
        r == spec_make_default_fires(
            info.inner.placement_left,
            info.inner.placement_right,
            update.placement_left,
            update.placement_right,
            config.spec_smart_sink(),
            is_default_sink,
        ),
{
    !is_wearing_state(info.inner.placement_left, info.inner.placement_right)
        && is_wearing_state(update.placement_left, update.placement_right) && config.smart_sink()
        && matches!(is_default_sink, Some(false))
}

/// The sink-fallback rule fires when the earbuds move into the case while
/// being the default output: the default falls back to another device.
pub open spec fn spec_fallback_fires(
    old_left: Placement,
    old_right: Placement,
    new_left: Placement,
    new_right: Placement,
    smart_sink: bool,
    is_default_sink: Option<bool>,
) -> bool {
    &&& smart_sink
    &&& !spec_is_placed(old_left, old_right)
    &&& spec_is_placed(new_left, new_right)
    &&& is_default_sink == Some(true)
}

/// What the fallback rule decided: whether to switch the default sink away
/// from the earbuds, and whether to resume the music this engine paused.
#[derive(Debug, Clone, Copy, PartialEq, Eq, Structural)]
pub struct FallbackDecision {
    pub switch_sink: bool,
    pub resume: bool,
}

/// Run the sink-fallback rule; clears the "paused by us" flag when it
/// resumes. Placements on `info` are still the previous ones.
pub fn fallback_to_sink(
    info: &mut BudsInfo,
    update: &StatusUpdate,
    config: &BudsConfig,
    is_default_sink: Option<bool>,
) -> (r: FallbackDecision)
    ensures
        r.switch_sink == spec_fallback_fires(
            old(info).inner.placement_left,
            old(info).inner.placement_right,
            update.placement_left,
            update.placement_right,
            config.spec_smart_sink(),
            is_default_sink,
        ),
        r.resume == (r.switch_sink && old(info).inner.paused_music_earlier),
        final(info).inner.paused_music_earlier == (old(info).inner.paused_music_earlier
            && !r.resume),
        final(info).inner == (crate::buds_info::BudsInfoInner {
            paused_music_earlier: final(info).inner.paused_music_earlier,
            ..old(info).inner
        }),
        final(info).last_debug == old(info).last_debug,
        final(info).left_tp_hold_count == old(info).left_tp_hold_count,
        final(info).right_tp_hold_count == old(info).right_tp_hold_count,
        final(info).last_tp_update == old(info).last_tp_update,
{
    let was_in_case = is_placed_state(info.inner.placement_left, info.inner.placement_right);
    let is_in_case = is_placed_state(update.placement_left, update.placement_right);

    let fires = config.smart_sink() && !was_in_case && is_in_case && matches!(
        is_default_sink,
        Some(true),
    );

    let mut decision = FallbackDecision { switch_sink: fires, resume: false };
    if fires && info.inner.paused_music_earlier {
        decision.resume = true;
        info.inner.paused_music_earlier = false;
    }
    decision
}

/// Copy a status update's battery levels and placements into the record.
pub fn update_status(update: &StatusUpdate, info: &mut BudsInfo)
    ensures
        final(info).inner.batt_left == update.battery_left,
        final(info).inner.batt_right == update.battery_right,
        final(info).inner.batt_case == update.battery_case,
        final(info).inner.placement_left == update.placement_left,
        final(info).inner.placement_right == update.placement_right,
        final(info).inner == (crate::buds_info::BudsInfoInner {
            batt_left: update.battery_left,
            batt_right: update.battery_right,
            batt_case: update.battery_case,
            placement_left: update.placement_left,
            placement_right: update.placement_right,
            ..old(info).inner
        }),
        final(info).last_debug == old(info).last_debug,
        final(info).left_tp_hold_count == old(info).left_tp_hold_count,
        final(info).right_tp_hold_count == old(info).right_tp_hold_count,
        final(info).last_tp_update == old(info).last_tp_update,
{
    info.inner.batt_left = update.battery_left;
    info.inner.batt_right = update.battery_right;
    info.inner.batt_case = update.battery_case;
    info.inner.placement_left = update.placement_left;
    info.inner.placement_right = update.placement_right;
}

/// How many notifications a run of battery reports raises, starting from a
/// given notification flag. Each pair is a left and a right level.
pub open spec fn lb_fire_count(flag: bool, s: Seq<(i8, i8)>) -> nat
    decreases s.len(),
{
    if s.len() == 0 {
        0nat
    } else {
        (if spec_low_battery_fires(flag, s[0].0 as int, s[0].1 as int) {
            1nat
        } else {
            0nat
        }) + lb_fire_count(
            spec_low_battery_next_flag(flag, s[0].0 as int, s[0].1 as int),
            s.skip(1),
        )
    }
}

/// How many times a run of battery reports clears an outstanding
/// notification flag.
pub open spec fn lb_reset_count(flag: bool, s: Seq<(i8, i8)>) -> nat
    decreases s.len(),
{
    if s.len() == 0 {
        0nat
    } else {
        (if s[0].0 > 30 && s[0].1 > 30 && flag {
            1nat
        } else {
            0nat
        }) + lb_reset_count(
            spec_low_battery_next_flag(flag, s[0].0 as int, s[0].1 as int),
            s.skip(1),
        )
    }
}

proof fn lemma_lb_flag_stays(s: Seq<(i8, i8)>)
    requires
        forall|k: int| 0 <= k < s.len() ==> !(#[trigger] s[k].0 > 30 && s[k].1 > 30),
    ensures
        lb_fire_count(true, s) == 0,
    decreases s.len(),
{
    if s.len() > 0 {
        assert(!(s[0].0 > 30 && s[0].1 > 30));
        assert(spec_low_battery_next_flag(true, s[0].0 as int, s[0].1 as int));
        assert(forall|k: int|
            0 <= k < s.skip(1).len() ==> !(#[trigger] s.skip(1)[k].0 > 30 && s.skip(1)[k].1 > 30));
        lemma_lb_flag_stays(s.skip(1));
    }
}

/// Law: while the battery levels never rise to where a reset applies, the
/// low-battery notification fires at most once over any run of reports.
pub proof fn lemma_low_battery_once(flag: bool, s: Seq<(i8, i8)>)
    requires
        forall|k: int| 0 <= k < s.len() ==> !(#[trigger] s[k].0 > 30 && s[k].1 > 30),
    ensures
        lb_fire_count(flag, s) <= 1,
    decreases s.len(),
{
    if s.len() > 0 {
        let l = s[0].0 as int;
        let r = s[0].1 as int;
        assert(forall|k: int|
            0 <= k < s.skip(1).len() ==> !(#[trigger] s.skip(1)[k].0 > 30 && s.skip(1)[k].1 > 30));
        if spec_low_battery_fires(flag, l, r) {
            assert(spec_low_battery_next_flag(flag, l, r));
            lemma_lb_flag_stays(s.skip(1));
        } else {
            lemma_low_battery_once(spec_low_battery_next_flag(flag, l, r), s.skip(1));
        }
    }
}

proof fn lemma_lb_no_reset_unflagged(s: Seq<(i8, i8)>)
    requires
        forall|k: int| 0 <= k < s.len() ==> #[trigger] s[k].0 > 30 && s[k].1 > 30,
    ensures
        lb_reset_count(false, s) == 0,
    decreases s.len(),
{
    if s.len() > 0 {
        assert(!spec_low_battery_fires(false, s[0].0 as int, s[0].1 as int));
        assert(!spec_low_battery_next_flag(false, s[0].0 as int, s[0].1 as int));
        assert(forall|k: int|
            0 <= k < s.skip(1).len() ==> #[trigger] s.skip(1)[k].0 > 30 && s.skip(1)[k].1 > 30);
        lemma_lb_no_reset_unflagged(s.skip(1));
    }
}

/// Law: with a notification outstanding, a run of reports in which both
/// levels always exceed thirty clears the flag exactly once.
pub proof fn lemma_low_battery_one_reset(s: Seq<(i8, i8)>)
    requires
        s.len() > 0,
        forall|k: int| 0 <= k < s.len() ==> #[trigger] s[k].0 > 30 && s[k].1 > 30,
    ensures
        lb_reset_count(true, s) == 1,
{
    assert(!spec_low_battery_next_flag(true, s[0].0 as int, s[0].1 as int));
    assert(forall|k: int|
        0 <= k < s.skip(1).len() ==> #[trigger] s.skip(1)[k].0 > 30 && s.skip(1)[k].1 > 30);
    lemma_lb_no_reset_unflagged(s.skip(1));
}

/// Law: across any two consecutive status updates, the resume rule fires at
/// most once — a second firing needs an intervening not-wearing edge, which
/// two consecutive updates cannot contain, because the first firing leaves
/// the device worn.
pub proof fn lemma_resume_once_per_edge(
    old_left: Placement,
    old_right: Placement,
    u1: StatusUpdate,
    u2: StatusUpdate,
    auto_play: bool,
    paused1: bool,
    paused2: bool,
    gate1: Option<bool>,
    gate2: Option<bool>,
)
    ensures
        !(spec_resume_fires(
            old_left,
            old_right,
            u1.placement_left,
            u1.placement_right,
            auto_play,
            paused1,
            gate1,
        ) && spec_resume_fires(
            u1.placement_left,
            u1.placement_right,
            u2.placement_left,
            u2.placement_right,
            auto_play,
            paused2,
            gate2,
        )),
{
}

/// Law: across any two consecutive status updates, the pause rule fires at
/// most once — the first firing leaves the device fully removed, and a
/// second firing needs it worn again first.
pub proof fn lemma_pause_once_per_edge(
    old_left: Placement,
    old_right: Placement,
    u1: StatusUpdate,
    u2: StatusUpdate,
    auto_pause: bool,
    gate1: Option<bool>,
    gate2: Option<bool>,
)
    ensures
        !(spec_pause_fires(
            old_left,
            old_right,
            u1.placement_left,
            u1.placement_right,
            auto_pause,
            gate1,
        ) && spec_pause_fires(
            u1.placement_left,
            u1.placement_right,
            u2.placement_left,
            u2.placement_right,
            auto_pause,
            gate2,
        )),
{
}


/// Law: across a whole run of placement reports, two firings of the resume
/// rule always bracket a report where the device was not fully worn — the
/// opposite edge. `p[k]` is the placement pair after report `k`, `p[0]` the
/// starting state; a firing at `k` is a not-wearing-to-wearing edge from
/// `p[k-1]` to `p[k]`.
pub proof fn lemma_resume_edges_bracketed(p: Seq<(Placement, Placement)>, i: int, j: int)
    requires
        1 <= i < j < p.len(),
        !spec_is_wearing(p[i - 1].0, p[i - 1].1) && spec_is_wearing(p[i].0, p[i].1),
        !spec_is_wearing(p[j - 1].0, p[j - 1].1) && spec_is_wearing(p[j].0, p[j].1),
    ensures
        exists|k: int| i <= k < j && !(#[trigger] spec_is_wearing(p[k].0, p[k].1)),
{
    assert(i <= j - 1 < j && !spec_is_wearing(p[j - 1].0, p[j - 1].1));
}

/// Law: two firings of the pause rule always bracket a report where some
/// earbud was worn again. A firing at `k` is an edge from some-worn at
/// `p[k-1]` to fully removed at `p[k]`.
pub proof fn lemma_pause_edges_bracketed(p: Seq<(Placement, Placement)>, i: int, j: int)
    requires
        1 <= i < j < p.len(),
        spec_is_some_wearing(p[i - 1].0, p[i - 1].1) && !spec_is_some_wearing(p[i].0, p[i].1),
        spec_is_some_wearing(p[j - 1].0, p[j - 1].1) && !spec_is_some_wearing(p[j].0, p[j].1),
    ensures
        exists|k: int| i <= k < j && #[trigger] spec_is_some_wearing(p[k].0, p[k].1),
{
    assert(i <= j - 1 < j && spec_is_some_wearing(p[j - 1].0, p[j - 1].1));
}

} // verus!

//! The daemon's behavior: session dispatch, policy rules, the gesture
//! machine, the connection table and the control-plane protocol.

use earbuds::buds_config::{BudsConfig, Config};
use earbuds::buds_info::BudsInfo;
use earbuds::codec::encode_message;
use earbuds::connection::{ConnHandler, ConnectionData, ConnectionDecision};
use earbuds::executor::{handle_request, PendingUpdate, RequestOutcome};
use earbuds::gesture;
use earbuds::json::str_chars;
use earbuds::messages;
use earbuds::model::Model;
use earbuds::policy;
use earbuds::properties::{Placement, Side};
use earbuds::response::Response;
use earbuds::rpc::{parse_request, Request};
use earbuds::session::{dispatch, FrameStage};

const ADDR: &str = "AA:BB:CC:DD:EE:FF";

fn device(ready: bool) -> BudsInfo {
    let mut info = BudsInfo::new(ADDR.to_string(), Model::BudsLive, 0);
    info.inner.ready = ready;
    info
}

fn config_with(entry: BudsConfig) -> Config {
    let mut config = Config::new();
    config.set_device_config(entry);
    config
}

fn full_config() -> BudsConfig {
    BudsConfig {
        address: ADDR.to_string(),
        default: Some(true),
        low_battery_notification: Some(true),
        auto_resume_music: Some(true),
        auto_pause_music: Some(true),
        smart_sink: None,
        smart_touchpad: None,
        hold_to_disconnect: Some(true),
    }
}

fn status_payload(batt_left: u8, batt_right: u8, placement: u8) -> Vec<u8> {
    vec![3, batt_left, batt_right, 1, 0, placement, 80]
}

#[test]
fn checksum_failure_leaves_the_record_untouched() {
    let mut info = device(true);
    info.inner.batt_left = 33;
    let mut msg = encode_message(messages::STATUS_UPDATED, &status_payload(11, 12, 0x11), false);
    msg[5] ^= 0x55;
    let cfg = full_config();
    let out = dispatch(&mut info, &msg, false, true, Some(&cfg), None, 100);
    assert_eq!(out.stage, FrameStage::CrcFailed);
    assert!(out.crc_warning);
    assert!(!out.send_debug_request);
    assert_eq!(info.inner.batt_left, 33);
    assert_eq!(info.inner.placement_left, Placement::Undetected);
}

#[test]
fn first_message_checksum_failure_is_silent() {
    let mut info = device(true);
    let mut msg = encode_message(messages::STATUS_UPDATED, &status_payload(11, 12, 0x11), false);
    msg[5] ^= 0x55;
    let out = dispatch(&mut info, &msg, true, true, None, None, 100);
    assert_eq!(out.stage, FrameStage::CrcFailed);
    assert!(!out.crc_warning);
    assert!(!out.new_first_msg);
}

#[test]
fn garbage_is_no_message_and_rearms_the_first_message_rule() {
    let mut info = device(true);
    let out = dispatch(&mut info, &[0, 1, 2], false, true, None, None, 100);
    assert_eq!(out.stage, FrameStage::NotAMessage);
    assert!(out.new_first_msg);
    assert_eq!(info.inner.batt_left, 0);
}

#[test]
fn status_update_is_written_and_polls_debug_telemetry() {
    let mut info = device(true);
    let msg = encode_message(messages::STATUS_UPDATED, &status_payload(55, 87, 0x11), false);
    let cfg = full_config();
    let out = dispatch(&mut info, &msg, false, false, Some(&cfg), None, 100);
    assert_eq!(out.stage, FrameStage::Valid);
    assert_eq!(info.inner.batt_left, 55);
    assert_eq!(info.inner.batt_right, 87);
    assert_eq!(info.inner.batt_case, 80);
    assert_eq!(info.inner.placement_left, Placement::Ear);
    // The first processed message always asks for debug telemetry.
    assert!(out.send_debug_request);
    assert!(out.new_requested_debug);
    assert_eq!(info.last_debug, 100);
}

#[test]
fn extended_status_makes_the_device_ready_and_is_acknowledged() {
    let mut info = device(false);
    let mut payload: Vec<u8> = vec![0; 18];
    payload[2] = 70;
    payload[3] = 71;
    payload[6] = 0x11;
    payload[10] = 1;
    let msg = encode_message(messages::EXTENDED_STATUS_UPDATED, &payload, false);
    let out = dispatch(&mut info, &msg, true, true, None, None, 5);
    assert_eq!(out.stage, FrameStage::Valid);
    assert!(out.send_manager_ack);
    assert!(info.inner.ready);
    assert_eq!(info.inner.batt_left, 70);
    assert!(info.inner.touchpads_blocked);
}

#[test]
fn resume_fires_once_per_wearing_edge() {
    let mut info = device(true);
    info.inner.paused_music_earlier = true;
    let cfg = full_config();

    let worn = encode_message(messages::STATUS_UPDATED, &status_payload(50, 50, 0x11), false);
    let out = dispatch(&mut info, &worn, false, true, Some(&cfg), None, 1);
    assert!(out.music.resume);
    assert!(!info.inner.paused_music_earlier);

    // Still worn: the same edge cannot fire twice.
    let out = dispatch(&mut info, &worn, false, true, Some(&cfg), None, 2);
    assert!(!out.music.resume);
}

#[test]
fn pause_fires_once_per_removal_edge() {
    let mut info = device(true);
    info.inner.placement_left = Placement::Ear;
    info.inner.placement_right = Placement::Ear;
    let cfg = full_config();

    let removed = encode_message(messages::STATUS_UPDATED, &status_payload(50, 50, 0x22), false);
    let out = dispatch(&mut info, &removed, false, true, Some(&cfg), None, 1);
    assert!(out.music.pause);
    // The pause flag waits for the player's answer.
    assert!(!info.inner.paused_music_earlier);
    policy::record_pause_result(&mut info, true);
    assert!(info.inner.paused_music_earlier);

    let out = dispatch(&mut info, &removed, false, true, Some(&cfg), None, 2);
    assert!(!out.music.pause);
}

#[test]
fn low_battery_notifies_once_and_resets_once() {
    let mut info = device(true);
    let cfg = full_config();

    let low = encode_message(messages::STATUS_UPDATED, &status_payload(15, 50, 0x11), false);
    let out = dispatch(&mut info, &low, false, true, Some(&cfg), None, 1);
    assert_eq!(out.notify_low_battery.map(|b| (b.left, b.right)), Some((15, 50)));
    assert!(info.inner.did_battery_notify);

    // Still low: no second notification.
    let lower = encode_message(messages::STATUS_UPDATED, &status_payload(12, 50, 0x11), false);
    let out = dispatch(&mut info, &lower, false, true, Some(&cfg), None, 2);
    assert!(out.notify_low_battery.is_none());
    assert!(info.inner.did_battery_notify);

    // Both levels above thirty: exactly one reset.
    let charged = encode_message(messages::STATUS_UPDATED, &status_payload(45, 45, 0x11), false);
    let out = dispatch(&mut info, &charged, false, true, Some(&cfg), None, 3);
    assert!(out.notify_low_battery.is_none());
    assert!(!info.inner.did_battery_notify);
}

#[test]
fn right_side_under_twenty_needs_positive_levels() {
    let mut info = device(true);
    let cfg = full_config();
    // Right reads zero: the rule wants both levels positive before it
    // trusts a low right side.
    let msg = encode_message(messages::STATUS_UPDATED, &status_payload(50, 0, 0x11), false);
    let out = dispatch(&mut info, &msg, false, true, Some(&cfg), None, 1);
    assert!(out.notify_low_battery.is_none());
    assert!(!info.inner.did_battery_notify);
}

#[test]
fn hold_gesture_disconnects_on_the_completing_event() {
    let mut info = device(true);
    info.inner.touchpads_blocked = true;
    let cfg = full_config();

    let sides = [Side::Left, Side::Right, Side::Left, Side::Right];
    let mut results = Vec::new();
    for (k, side) in sides.iter().enumerate() {
        let r = gesture::handle(
            *side,
            gesture::HOLD_TOUCH_COUNT,
            &mut info,
            Some(&cfg),
            (k + 1) as u64,
            gesture::REQUIRED_TAP_DURATION,
        );
        results.push(r);
    }
    assert_eq!(results, vec![false, false, false, true]);
    assert_eq!(info.left_tp_hold_count, 0);
    assert_eq!(info.right_tp_hold_count, 0);
}

#[test]
fn gesture_ignores_other_touch_counts_and_disabled_devices() {
    let mut info = device(true);
    info.inner.touchpads_blocked = true;
    let cfg = full_config();
    assert!(!gesture::handle(Side::Left, 3, &mut info, Some(&cfg), 1, 2));
    assert_eq!(info.left_tp_hold_count, 0);

    let mut disabled = full_config();
    disabled.hold_to_disconnect = Some(false);
    assert!(!gesture::handle(Side::Left, 7, &mut info, Some(&disabled), 1, 2));
    assert_eq!(info.left_tp_hold_count, 0);
}

#[test]
fn gesture_counters_reset_after_idle_window() {
    let mut info = device(true);
    info.inner.touchpads_blocked = true;
    let cfg = full_config();
    assert!(!gesture::handle(Side::Left, 7, &mut info, Some(&cfg), 10, 2));
    assert!(!gesture::handle(Side::Right, 7, &mut info, Some(&cfg), 11, 2));
    // Idle longer than the window: both counters start over.
    assert!(!gesture::handle(Side::Left, 7, &mut info, Some(&cfg), 30, 2));
    assert_eq!(info.left_tp_hold_count, 1);
    assert_eq!(info.right_tp_hold_count, 0);
}

#[test]
fn touchpad_message_drives_the_gesture_through_dispatch() {
    let mut info = device(true);
    info.inner.touchpads_blocked = true;
    let cfg = full_config();
    let tap_left = encode_message(messages::TOUCHPAD_ACTION, &vec![1, 7], false);
    let tap_right = encode_message(messages::TOUCHPAD_ACTION, &vec![0, 7], false);
    assert!(!dispatch(&mut info, &tap_left, false, true, Some(&cfg), None, 1).disconnect);
    assert!(!dispatch(&mut info, &tap_right, false, true, Some(&cfg), None, 2).disconnect);
    assert!(!dispatch(&mut info, &tap_left, false, true, Some(&cfg), None, 3).disconnect);
    assert!(dispatch(&mut info, &tap_right, false, true, Some(&cfg), None, 4).disconnect);
}

#[test]
fn disconnect_events_remove_a_session_exactly_once() {
    let mut cd = ConnectionData::new();
    cd.data.push(device(true));
    let mut ch = ConnHandler::new(cd);
    ch.add_device(ADDR.to_string());
    assert!(ch.has_device(&ADDR.to_string()));

    let d = ch.handle_connection_event(&ADDR.to_string(), false);
    assert_eq!(d, ConnectionDecision::Removed);
    assert_eq!(ch.connection_data.data.len(), 0);
    assert!(!ch.has_device(&ADDR.to_string()));

    // The second disconnect is a no-op.
    let d = ch.handle_connection_event(&ADDR.to_string(), false);
    assert_eq!(d, ConnectionDecision::Removed);
    assert_eq!(ch.connection_data.data.len(), 0);
    assert!(!ch.has_device(&ADDR.to_string()));
}

#[test]
fn tracked_addresses_are_not_connected_twice() {
    let cd = ConnectionData::new();
    let mut ch = ConnHandler::new(cd);
    assert_eq!(
        ch.handle_connection_event(&ADDR.to_string(), true),
        ConnectionDecision::TryConnect
    );
    let mut config = Config::new();
    ch.register_device(&ADDR.to_string(), &mut config);
    assert_eq!(
        ch.handle_connection_event(&ADDR.to_string(), true),
        ConnectionDecision::AlreadyConnected
    );
    // The first registered device becomes the default.
    assert!(config.get_device_config(&ADDR.to_string()).unwrap().is_default());
}

#[test]
fn config_rejects_duplicates() {
    let mut config = Config::new();
    config.set_device_config(BudsConfig::new(ADDR.to_string()));
    assert!(config.check_config().is_ok());
    config.buds_settings.push(BudsConfig::new(ADDR.to_string()));
    assert!(config.check_config().is_err());
}

#[test]
fn request_round_trip_is_field_for_field() {
    let mut req = Request::new("set_value".to_string(), Some(ADDR.to_string()));
    req.opt_param1 = Some("noise_reduction".to_string());
    req.opt_param2 = Some("on".to_string());
    let json = req.to_json();
    let parsed = parse_request(&str_chars(&json)).expect("round trip");
    assert_eq!(parsed.cmd, req.cmd);
    assert_eq!(parsed.device, req.device);
    assert_eq!(parsed.opt_param1, req.opt_param1);
    assert_eq!(parsed.opt_param2, req.opt_param2);
    assert_eq!(parsed.opt_param3, req.opt_param3);
}

#[test]
fn request_round_trip_escapes_quotes() {
    let req = Request::new("get_status".to_string(), Some("A\"B\\C".to_string()));
    let json = req.to_json();
    let parsed = parse_request(&str_chars(&json)).expect("round trip");
    assert_eq!(parsed.device.as_deref(), Some("A\"B\\C"));
}

#[test]
fn response_round_trip_is_field_for_field() {
    let resp = Response::new_error("".to_string(), "No connected device found".to_string());
    let json = resp.to_json();
    let parsed = Response::from_string(&json).expect("round trip");
    assert_eq!(parsed.status, "error");
    assert_eq!(parsed.device, "");
    assert_eq!(parsed.status_message.as_deref(), Some("No connected device found"));
    assert!(parsed.payload.is_none());
}

#[test]
fn get_status_returns_the_snapshot() {
    let mut cd = ConnectionData::new();
    let mut dev = device(true);
    dev.inner.batt_left = 55;
    cd.data.push(dev);
    let mut config = config_with(full_config());

    let line = format!("{{\"cmd\":\"get_status\",\"device\":null}}");
    let req = parse_request(&str_chars(&line)).expect("the scenario line parses");
    match handle_request(&req, &cd, &mut config) {
        RequestOutcome::Respond { response, save_config } => {
            assert!(!save_config);
            assert!(response.is_success());
            assert_eq!(response.device, ADDR);
            let payload = response.payload.as_ref().expect("a snapshot");
            assert_eq!(payload.batt_left, 55);
            let json = response.to_json();
            assert!(json.contains("\"status\":\"success\""));
            assert!(json.contains("\"device\":\"AA:BB:CC:DD:EE:FF\""));
            assert!(json.contains("\"batt_left\":55"));
        },
        _ => panic!("a status query answers at once"),
    }
}

#[test]
fn unsupported_feature_is_refused() {
    let mut cd = ConnectionData::new();
    // The Galaxy Buds+ has no noise cancellation.
    let mut dev = BudsInfo::new(ADDR.to_string(), Model::BudsPlus, 0);
    dev.inner.ready = true;
    cd.data.push(dev);
    let mut config = config_with(full_config());

    let line = format!(
        "{{\"cmd\":\"set_value\",\"device\":\"{}\",\"opt_param1\":\"noise_reduction\",\"opt_param2\":\"on\"}}",
        ADDR
    );
    let req = parse_request(&str_chars(&line)).expect("the scenario line parses");
    match handle_request(&req, &cd, &mut config) {
        RequestOutcome::Respond { response, .. } => {
            assert!(response.is_error());
            assert_eq!(
                response.status_message.as_deref(),
                Some("Feature not supported by your model")
            );
            let json = response.to_json();
            assert!(json.contains("\"status\":\"error\""));
            assert!(json.contains("\"status_message\":\"Feature not supported by your model\""));
        },
        _ => panic!("an unsupported set answers at once"),
    }
}

#[test]
fn no_connected_device_is_reported_every_time() {
    let cd = ConnectionData::new();
    let mut config = Config::new();
    let line = "{\"cmd\":\"get_status\",\"device\":null}";
    for _ in 0..2 {
        let req = parse_request(&str_chars(line)).expect("parses");
        match handle_request(&req, &cd, &mut config) {
            RequestOutcome::Respond { response, .. } => {
                assert!(response.is_error());
                assert_eq!(response.status_message.as_deref(), Some("No connected device found"));
                let json = response.to_json();
                assert!(json.contains("\"status\":\"error\""));
                assert!(json.contains("\"status_message\":\"No connected device found\""));
            },
            _ => panic!("an unanswerable query answers at once"),
        }
    }
}

#[test]
fn set_value_builds_the_messages_to_send() {
    let mut cd = ConnectionData::new();
    cd.data.push(device(true));
    let mut config = config_with(full_config());

    let mut req = Request::new("set_value".to_string(), Some(ADDR.to_string()));
    req.opt_param1 = Some("noise_reduction".to_string());
    req.opt_param2 = Some("on".to_string());
    match handle_request(&req, &cd, &mut config) {
        RequestOutcome::DeviceCommand { pos, address, steps } => {
            assert_eq!(pos, 0);
            assert_eq!(address, ADDR);
            assert_eq!(steps.len(), 1);
            assert_eq!(steps[0].update, PendingUpdate::NoiseReduction(true));
            assert_eq!(steps[0].message, messages::set_noise_reduction_message(true));
        },
        _ => panic!("a supported set hands back messages"),
    }
}

#[test]
fn toggle_negates_the_current_flag() {
    let mut cd = ConnectionData::new();
    let mut dev = device(true);
    dev.inner.noise_reduction = true;
    cd.data.push(dev);
    let mut config = config_with(full_config());

    let mut req = Request::new("toggle_value".to_string(), Some(ADDR.to_string()));
    req.opt_param1 = Some("noise_reduction".to_string());
    match handle_request(&req, &cd, &mut config) {
        RequestOutcome::DeviceCommand { steps, .. } => {
            assert_eq!(steps.len(), 1);
            assert_eq!(steps[0].update, PendingUpdate::NoiseReduction(false));
        },
        _ => panic!("a toggle hands back messages"),
    }
}

#[test]
fn set_config_persists_a_flag() {
    let mut cd = ConnectionData::new();
    cd.data.push(device(true));
    let mut config = config_with(full_config());

    let mut req = Request::new("set_config".to_string(), Some(ADDR.to_string()));
    req.opt_param1 = Some("auto_pause".to_string());
    req.opt_param2 = Some("off".to_string());
    match handle_request(&req, &cd, &mut config) {
        RequestOutcome::Respond { response, save_config } => {
            assert!(response.is_success());
            assert!(save_config);
            let entry = config.get_device_config(&ADDR.to_string()).unwrap();
            assert_eq!(entry.auto_pause_music, Some(false));
        },
        _ => panic!("a config change answers at once"),
    }
}

#[test]
fn connect_resolves_through_the_configured_default() {
    let cd = ConnectionData::new();
    let mut config = config_with(full_config());
    let req = Request::new("connect".to_string(), None);
    match handle_request(&req, &cd, &mut config) {
        RequestOutcome::ChangeConnection { address, connect } => {
            assert!(connect);
            assert_eq!(address, ADDR);
        },
        _ => panic!("a connect goes to the adapter"),
    }
}

#[test]
fn ambient_volume_switches_the_mode_around_the_level() {
    let mut cd = ConnectionData::new();
    let mut dev = BudsInfo::new(ADDR.to_string(), Model::Buds2, 0);
    dev.inner.ready = true;
    cd.data.push(dev);
    let mut config = config_with(full_config());

    let mut req = Request::new("set_value".to_string(), Some(ADDR.to_string()));
    req.opt_param1 = Some("ambient_volume".to_string());
    req.opt_param2 = Some("2".to_string());
    match handle_request(&req, &cd, &mut config) {
        RequestOutcome::DeviceCommand { steps, .. } => {
            let updates: Vec<PendingUpdate> = steps.iter().map(|s| s.update).collect();
            assert_eq!(
                updates,
                vec![PendingUpdate::AmbientMode(true), PendingUpdate::AmbientVolume(2)]
            );
        },
        _ => panic!("a volume set hands back messages"),
    }

    // A level past the model's loudest is refused.
    let mut req = Request::new("set_value".to_string(), Some(ADDR.to_string()));
    req.opt_param1 = Some("ambient_volume".to_string());
    req.opt_param2 = Some("9".to_string());
    match handle_request(&req, &cd, &mut config) {
        RequestOutcome::Respond { response, .. } => {
            assert_eq!(response.status_message.as_deref(), Some("Invalid volume level"));
        },
        _ => panic!("an out-of-range volume answers at once"),
    }
}

#[test]
fn sendable_requests_end_with_a_newline() {
    let req = Request::new("get_status".to_string(), None);
    let line = req.sendable();
    assert!(line.ends_with('\n'));
    let body = &line[..line.len() - 1];
    assert!(parse_request(&str_chars(body)).is_some());
}

#[test]
fn a_status_response_serializes_to_the_exact_wire_form() {
    let mut cd = ConnectionData::new();
    let mut dev = device(true);
    dev.inner.batt_left = 55;
    cd.data.push(dev);
    let mut config = config_with(full_config());
    let req = Request::new("get_status".to_string(), None);
    let RequestOutcome::Respond { response, .. } = handle_request(&req, &cd, &mut config) else {
        panic!("a status query answers at once");
    };
    let expected = "{\"status\":\"success\",\"device\":\"AA:BB:CC:DD:EE:FF\",\"status_message\":null,\"payload\":{\"address\":\"AA:BB:CC:DD:EE:FF\",\"ready\":true,\"batt_left\":55,\"batt_right\":0,\"batt_case\":0,\"placement_left\":0,\"placement_right\":0,\"equalizer_type\":10,\"touchpads_blocked\":false,\"noise_reduction\":false,\"did_battery_notify\":false,\"touchpad_option_left\":0,\"touchpad_option_right\":0,\"paused_music_earlier\":false,\"debug\":{\"voltage_left\":0,\"voltage_right\":0,\"temperature_left\":0,\"temperature_right\":0,\"current_left\":0,\"current_right\":0},\"model\":\"BudsLive\",\"ambient_sound_enabled\":false,\"ambient_sound_volume\":0,\"extra_high_ambient_volume\":false,\"tab_lock_status\":{\"touch_an_hold_on\":false,\"triple_tap_on\":false,\"double_tap_on\":false,\"tap_on\":false,\"touch_controls_on\":false}}}";
    assert_eq!(response.to_json(), expected);
    // A payload-carrying response is written, not read back.
    assert!(Response::from_string(expected).is_none());
}

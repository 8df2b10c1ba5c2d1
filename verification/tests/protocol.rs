//! The binary protocol: framing, checksums, typed decoders and the message
//! builders.

use earbuds::codec::{decode_frame, encode_message, frame_structurally_valid, BOM, EOM};
use earbuds::messages;
use earbuds::model::{name_to_model, Feature, Model};
use earbuds::properties::{EqualizerType, Placement, Side, TouchpadOption};
use earbuds::utils::{is_number, is_str_bool, str_to_bool, str_to_side};

#[test]
fn encode_then_decode_gives_the_message_back() {
    let payload: Vec<u8> = vec![7, 1, 2, 3];
    let msg = encode_message(42, &payload, false);
    assert_eq!(msg[0], BOM);
    assert_eq!(msg[msg.len() - 1], EOM);
    let frame = decode_frame(&msg).expect("an encoded frame must decode");
    assert_eq!(frame.id, 42);
    assert_eq!(frame.payload, payload);
}

#[test]
fn header_declares_the_length() {
    let payload: Vec<u8> = vec![1];
    let msg = encode_message(152, &payload, false);
    // BOM, header low, header high, id, payload, crc (2 bytes), EOM.
    assert_eq!(msg.len(), 8);
    assert_eq!(&msg[0..4], &[253, 4, 0, 152]);
    assert_eq!(msg[7], 221);
}

#[test]
fn corrupted_checksum_yields_no_message() {
    let payload: Vec<u8> = vec![9, 9, 9];
    let mut msg = encode_message(96, &payload, false);
    // Flip one payload byte; the declared checksum no longer matches.
    msg[4] ^= 0xFF;
    assert!(frame_structurally_valid(&msg));
    assert!(decode_frame(&msg).is_none());
}

#[test]
fn corrupted_trailer_is_not_a_message() {
    let payload: Vec<u8> = vec![1, 2];
    let mut msg = encode_message(97, &payload, false);
    let last = msg.len() - 1;
    msg[last] = 0;
    assert!(!frame_structurally_valid(&msg));
    assert!(decode_frame(&msg).is_none());
}

#[test]
fn status_update_fields_are_read_from_their_offsets() {
    // revision, battery left, battery right, coupled, primary, placements, case.
    let payload: Vec<u8> = vec![3, 55, 87, 1, 0, 0x13, 92];
    let u = messages::decode_status(&payload).expect("seven bytes suffice");
    assert_eq!(u.battery_left, 55);
    assert_eq!(u.battery_right, 87);
    assert_eq!(u.battery_case, 92);
    assert_eq!(u.placement_left, Placement::Ear);
    assert_eq!(u.placement_right, Placement::InOpenCase);
    assert!(messages::decode_status(&payload[0..6]).is_none());
}

#[test]
fn extended_status_reads_the_model_layout() {
    let mut payload: Vec<u8> = vec![0; 18];
    payload[2] = 40;
    payload[3] = 50;
    payload[6] = 0x11;
    payload[7] = 60;
    payload[9] = 2;
    payload[10] = 1;
    payload[11] = 0x36;
    payload[12] = 1;
    let u = messages::decode_extended(&payload, Model::BudsLive).expect("long enough");
    assert_eq!(u.battery_left, 40);
    assert_eq!(u.battery_right, 50);
    assert_eq!(u.battery_case, 60);
    assert_eq!(u.equalizer_type, EqualizerType::Soft);
    assert!(u.touchpads_blocked);
    assert!(u.noise_reduction);
    assert_eq!(u.touchpad_option_left, TouchpadOption::Volume);
    assert_eq!(u.touchpad_option_right, TouchpadOption::Disconnect);
    // The original Galaxy Buds model sends no extended report this decoder reads.
    assert!(messages::decode_extended(&payload, Model::Buds).is_none());
    assert!(messages::decode_extended(&payload[0..17], Model::BudsLive).is_none());
}

#[test]
fn touch_action_names_the_side() {
    assert_eq!(
        messages::decode_touch_action(&[1, 7]).map(|t| (t.side, t.touch_count)),
        Some((Side::Left, 7))
    );
    assert_eq!(
        messages::decode_touch_action(&[0, 3]).map(|t| (t.side, t.touch_count)),
        Some((Side::Right, 3))
    );
    assert!(messages::decode_touch_action(&[1]).is_none());
}

#[test]
fn debug_telemetry_reads_the_battery_block() {
    let mut payload: Vec<u8> = vec![0; 54];
    payload[44] = 0x9A;
    payload[45] = 0x01;  // voltage left: 0x019A = 410 centivolts
    payload[38] = 0x22;
    payload[39] = 0x01;  // temperature left: 0x0122 = 290 tenths
    let d = messages::decode_debug(&payload, Model::BudsLive).expect("long enough");
    assert_eq!(d.voltage_left, 410);
    assert_eq!(d.temperature_left, 290);
    assert!(messages::decode_debug(&payload, Model::Buds).is_none());
    assert!(messages::decode_debug(&payload, Model::BudsPro2).is_none());
}

#[test]
fn builders_frame_their_ids_and_payloads() {
    let m = messages::set_noise_reduction_message(true);
    let f = decode_frame(&m).unwrap();
    assert_eq!(f.id, messages::SET_NOISE_REDUCTION);
    assert_eq!(f.payload, vec![1]);

    let m = messages::lock_touchpad_message(false);
    let f = decode_frame(&m).unwrap();
    assert_eq!(f.id, messages::LOCK_TOUCHPAD);
    assert_eq!(f.payload, vec![0]);

    let m = messages::equalizer_message(EqualizerType::BassBoost);
    let f = decode_frame(&m).unwrap();
    assert_eq!(f.id, messages::EQUALIZER);
    assert_eq!(f.payload, vec![1]);

    let m = messages::set_touchpad_option_message(TouchpadOption::Volume, TouchpadOption::Spotify);
    let f = decode_frame(&m).unwrap();
    assert_eq!(f.id, messages::SET_TOUCHPAD_OPTION);
    assert_eq!(f.payload, vec![3, 4]);

    let m = messages::set_ambient_volume_message(2);
    let f = decode_frame(&m).unwrap();
    assert_eq!(f.id, messages::AMBIENT_VOLUME);
    assert_eq!(f.payload, vec![1]);

    let m = messages::manager_info_message(true, 24);
    let f = decode_frame(&m).unwrap();
    assert_eq!(f.id, messages::MANAGER_INFO);
    assert_eq!(f.payload, vec![1, 1, 24]);

    let m = messages::debug_request_message();
    let f = decode_frame(&m).unwrap();
    assert_eq!(f.id, messages::DEBUG_GET_ALL_DATA);
    assert!(f.payload.is_empty());
}

#[test]
fn property_bytes_round_trip() {
    for v in 0..=6u8 {
        let opt = TouchpadOption::decode(v);
        if opt != TouchpadOption::Undetected {
            assert_eq!(opt.encode(), v);
        }
    }
    assert_eq!(Placement::decode(1), Placement::Ear);
    assert_eq!(Placement::decode(3), Placement::InOpenCase);
    assert_eq!(Placement::Ear.encode(), 1);
    assert_eq!(EqualizerType::decode(5), EqualizerType::TrebleBoost);
    assert_eq!(EqualizerType::Undetected.encode(), 10);
}

#[test]
fn model_names_resolve_case_insensitively() {
    assert_eq!(name_to_model("Galaxy Buds Live (ABCD)"), Model::BudsLive);
    assert_eq!(name_to_model("Galaxy Buds Pro"), Model::BudsPro);
    assert_eq!(name_to_model("Galaxy Buds+"), Model::BudsPlus);
    assert_eq!(name_to_model("Galaxy Buds2"), Model::Buds2);
    assert_eq!(name_to_model("Some Headset"), Model::Buds);
}

#[test]
fn model_features_follow_the_table() {
    assert!(Model::BudsLive.has_feature(Feature::Anc));
    assert!(!Model::BudsPlus.has_feature(Feature::Anc));
    assert!(Model::BudsPlus.has_feature(Feature::ExtraHighAmbientVolume));
    assert!(Model::Buds2.has_feature(Feature::ExtTouchpadLock));
    assert!(!Model::Buds.has_feature(Feature::Anc));
}

#[test]
fn boolean_words_are_read_loosely() {
    assert!(str_to_bool("true"));
    assert!(str_to_bool("ON"));
    assert!(str_to_bool("Enabled"));
    assert!(str_to_bool("1"));
    assert!(!str_to_bool("false"));
    assert!(!str_to_bool("bogus"));
    assert!(is_str_bool("off"));
    assert!(is_str_bool("Disabled"));
    assert!(is_str_bool("no"));
    assert!(!is_str_bool("maybe"));
}

#[test]
fn sides_and_numbers_are_parsed() {
    assert_eq!(str_to_side("left"), Some(Side::Left));
    assert_eq!(str_to_side("r"), Some(Side::Right));
    assert_eq!(str_to_side("middle"), None);
    assert!(is_number("42"));
    assert!(is_number("-17"));
    assert!(is_number("+5"));
    assert!(is_number("2147483647"));
    assert!(!is_number("99999999999999"));
    assert!(!is_number(""));
    assert!(!is_number("4.2"));
    assert!(!is_number("+-3"));
}

use mushak::hidpp::device::{classify_reply, decode_reprog_event, route_event, FeatureMap, ReplyKind, ReprogEvent, Route};
use mushak::hidpp::features::battery::interpret;
use mushak::hidpp::features::device_info::firmware_string;
use mushak::hidpp::features::dpi::{decode_dpi_list, nearest, parse_dpi, set_dpi_params};
use mushak::hidpp::features::reprog::{plan_control_diverts, ControlInfo, CID_GESTURE};
use mushak::hidpp::features::root::{get_feature_params, parse_get_feature};
use mushak::hidpp::features::smartshift::smartshift_params;
use mushak::hidpp::protocol::{address, error_20_name, long_request, short_request, Report, SW_ID};
use mushak::config::SmartShiftMode;
use mushak::logging::hex;
use mushak::hidpp::transport::ConnectionKind;

fn long(bytes: &[u8]) -> Report {
    let mut raw = [0u8; 20];
    raw[..bytes.len()].copy_from_slice(bytes);
    Report::new(&raw)
}

#[test]
fn the_address_byte_carries_function_and_software_id() {
    assert_eq!(address(1), 0x10 | SW_ID);
    assert_eq!(address(0), SW_ID);
}

#[test]
fn a_long_request_lays_out_header_then_zero_padded_params() {
    let req = long_request(0xFF, 0x05, 1, &[0x12, 0x34]);
    assert_eq!(req.len(), 20);
    assert_eq!(&req[..6], &[0x11, 0xFF, 0x05, 0x1A, 0x12, 0x34]);
    assert!(req[6..].iter().all(|&b| b == 0));
}

#[test]
fn a_short_request_is_seven_bytes() {
    let req = short_request(0x01, 0x80, 0x02, &[0x03]);
    assert_eq!(req, [0x10, 0x01, 0x80, 0x02, 0x03, 0, 0]);
}

#[test]
fn a_request_reads_back_through_the_report_accessors() {
    let req = long_request(2, 7, 3, &[9, 8, 7]);
    let rep = Report::new(&req);
    assert_eq!(rep.report_id(), 0x11);
    assert_eq!(rep.device_index(), 2);
    assert_eq!(rep.feature_index(), 7);
    assert_eq!(rep.function(), 3);
    assert_eq!(rep.sw_id(), SW_ID);
    assert_eq!((rep.param(0), rep.param(1), rep.param(2)), (9, 8, 7));
    assert!(!rep.is_event());
}

#[test]
fn a_hidpp20_error_names_its_cause() {
    let rep = long(&[0x11, 0x01, 0xFF, 0x05, 0x1A, 0x02]);
    assert!(rep.is_error_20());
    assert_eq!(rep.error_20(), (0x05, 0x1A, 0x02));
    assert_eq!(error_20_name(2), "invalid argument");
    assert_eq!(error_20_name(9), "unsupported");
    assert_eq!(error_20_name(0x42), "reserved");
}

#[test]
fn replies_errors_and_events_are_told_apart() {
    let reply = long(&[0x11, 0x01, 0x05, 0x1A, 0x00]);
    assert_eq!(classify_reply(&reply, 1, 5, 1), ReplyKind::Reply);
    let failed = long(&[0x11, 0x01, 0xFF, 0x05, 0x1A, 0x04]);
    assert_eq!(classify_reply(&failed, 1, 5, 1), ReplyKind::Failed(4));
    let other_error = long(&[0x11, 0x01, 0xFF, 0x06, 0x1A, 0x04]);
    assert_eq!(classify_reply(&other_error, 1, 5, 1), ReplyKind::Ignore);
    let other_device = long(&[0x11, 0x02, 0x05, 0x1A, 0x00]);
    assert_eq!(classify_reply(&other_device, 1, 5, 1), ReplyKind::Event);
}

#[test]
fn battery_status_counts_charging_states() {
    assert_eq!(interpret(80, 0), (80, false));
    assert_eq!(interpret(80, 1), (80, true));
    assert_eq!(interpret(80, 3), (80, true));
    assert_eq!(interpret(80, 4), (80, false));
}

#[test]
fn a_dpi_range_expands_into_steps() {
    // sensor 0; 400, range step 100, up to 800; terminated by zero.
    let rep = long(&[0x11, 0x01, 0x09, 0x1A, 0x00, 0x01, 0x90, 0xE0, 0x64, 0x03, 0x20]);
    assert_eq!(decode_dpi_list(&rep), vec![400, 500, 600, 700, 800]);
}

#[test]
fn a_plain_dpi_list_is_sorted_and_deduplicated() {
    let rep = long(&[0x11, 0x01, 0x09, 0x1A, 0x00, 0x03, 0x20, 0x01, 0x90, 0x03, 0x20]);
    assert_eq!(decode_dpi_list(&rep), vec![400, 800]);
}

#[test]
fn the_current_dpi_and_its_setter() {
    let rep = long(&[0x11, 0x01, 0x09, 0x2A, 0x00, 0x03, 0xE8, 0x03, 0x20]);
    assert_eq!(parse_dpi(&rep), (1000, 800));
    assert_eq!(set_dpi_params(1000), [0, 0x03, 0xE8]);
}

#[test]
fn the_nearest_supported_dpi_is_picked() {
    assert_eq!(nearest(&[400, 800, 1600], 1000), 800);
    assert_eq!(nearest(&[400, 800, 1600], 1300), 1600);
    assert_eq!(nearest(&[], 1234), 1234);
}

#[test]
fn smartshift_modes_become_wheel_settings() {
    assert_eq!(smartshift_params(SmartShiftMode::AlwaysRatchet, 10, Some((2, 10, 16))), [2, 255, 16]);
    assert_eq!(smartshift_params(SmartShiftMode::AlwaysFreespin, 10, Some((2, 10, 16))), [1, 1, 16]);
    assert_eq!(smartshift_params(SmartShiftMode::SmartShift, 0, None), [2, 1, 0]);
    assert_eq!(smartshift_params(SmartShiftMode::SmartShift, 99, None), [2, 30, 0]);
}

#[test]
fn a_feature_lookup_round_trips() {
    assert_eq!(get_feature_params(0x1B04), [0x1B, 0x04, 0]);
    let found = long(&[0x11, 0x01, 0x00, 0x0A, 0x08, 0x00, 0x04]);
    assert_eq!(parse_get_feature(&found), Some((8, 0, 4)));
    let absent = long(&[0x11, 0x01, 0x00, 0x0A, 0x00, 0x00, 0x00]);
    assert_eq!(parse_get_feature(&absent), None);
}

#[test]
fn firmware_is_named_and_versioned() {
    let fw = long(&[0x11, 0x01, 0x03, 0x1A, 0x00, b'M', b'P', b'M', 0x12, 0x05, 0x00, 0x0A]);
    assert_eq!(firmware_string(&fw), "MPM 12.05.B000a");
}

#[test]
fn only_the_gesture_button_is_diverted() {
    let controls = [
        ControlInfo { cid: 0x0050, tid: 0x0038, flags: 0x00, additional_flags: 0 },
        ControlInfo { cid: CID_GESTURE, tid: 0x00C3, flags: 0x20 | 0x10, additional_flags: 0 },
    ];
    let plan = plan_control_diverts(&controls, true);
    assert!(plan.iter().all(|a| !a.divert || a.cid == CID_GESTURE));
    assert!(plan.iter().any(|a| a.divert && a.cid == CID_GESTURE));
    let off = plan_control_diverts(&controls, false);
    assert!(off.iter().all(|a| !a.divert));
}

#[test]
fn held_buttons_and_raw_motion_decode() {
    let buttons = long(&[0x11, 0x01, 0x06, 0x0A, 0x00, 0xC3, 0x00, 0x00]);
    assert_eq!(
        decode_reprog_event(&buttons),
        ReprogEvent::Buttons { cids: vec![0x00C3], gesture_held: true }
    );
    let xy = long(&[0x11, 0x01, 0x06, 0x1A, 0xFF, 0xFE, 0x00, 0x05]);
    assert_eq!(decode_reprog_event(&xy), ReprogEvent::RawXY { dx: -2, dy: 5 });
}

#[test]
fn events_are_routed_by_feature() {
    let mut features = FeatureMap::new();
    features.battery = Some(4);
    features.hires_wheel = Some(9);
    let battery = long(&[0x11, 0x01, 0x04, 0x00, 55, 0, 1]);
    assert_eq!(route_event(&battery, &features), Route::Battery { percent: 55, charging: true });
    let wheel = long(&[0x11, 0x01, 0x09, 0x00, 0, 0, 8]);
    assert_eq!(route_event(&wheel, &features), Route::Wheel);
    let mut short = [0u8; 7];
    short.copy_from_slice(&[0x10, 0x01, 0x41, 0x04, 0, 0, 0]);
    assert_eq!(route_event(&Report::new(&short), &features), Route::Reconnected);
}

#[test]
fn reports_print_as_spaced_hex() {
    assert_eq!(hex(&[0x11, 0x0a, 0xff]), "11 0a ff");
    assert_eq!(hex(&[]), "");
}

#[test]
fn connection_labels() {
    assert_eq!(ConnectionKind::Receiver.label(2), "Unifying receiver (device 2)");
    assert_eq!(ConnectionKind::Bluetooth.label(0xFF), "Bluetooth");
}

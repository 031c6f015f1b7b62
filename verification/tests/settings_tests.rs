use maschine_driver::settings::{ButtonModes, Settings, TransportCCMap};
use maschine_driver::text::decimal_string;

#[test]
fn default_settings_values() {
    let s = Settings::default();
    assert_eq!(s.notemaps, vec![49, 27, 31, 57, 48, 47, 43, 59, 36, 38, 46, 51, 36, 38, 42, 44]);
    assert_eq!(s.client_name, "Maschine Mikro MK3");
    assert_eq!(s.port_name, "Maschine Mikro MK3 MIDI Out");
    assert_eq!(s.transport_channel, 0);
    assert_eq!(s.transport_cc_map, TransportCCMap::default());
    assert_eq!(s.touch_strip_cc, 1);
    assert!(s.button_modes.toggle.is_empty());
}

#[test]
fn default_transport_map() {
    let m = TransportCCMap::default();
    assert_eq!(
        (m.play, m.stop, m.rec, m.restart, m.erase, m.tap, m.follow),
        (118, 117, 119, 116, 120, 121, 122)
    );
}

#[test]
fn default_settings_validate() {
    assert_eq!(Settings::default().validate(), Ok(()));
}

#[test]
fn validate_rejects_pad_count() {
    let mut s = Settings::default();
    s.notemaps.pop();
    assert_eq!(s.validate(), Err("The should be 16 pads exactly (found 15)".to_string()));
    s.notemaps = Vec::new();
    assert_eq!(s.validate(), Err("The should be 16 pads exactly (found 0)".to_string()));
    s.notemaps = vec![40; 17];
    assert_eq!(s.validate(), Err("The should be 16 pads exactly (found 17)".to_string()));
}

#[test]
fn validate_rejects_high_note() {
    let mut s = Settings::default();
    s.notemaps[15] = 128;
    assert_eq!(s.validate(), Err("MIDI notes should be 0 to 127".to_string()));
    s.notemaps[15] = 127;
    assert_eq!(s.validate(), Ok(()));
}

#[test]
fn validate_rejects_empty_names() {
    let mut s = Settings::default();
    s.client_name = String::new();
    assert_eq!(s.validate(), Err("Client name must not be empty".to_string()));
    let mut s = Settings::default();
    s.port_name = String::new();
    assert_eq!(s.validate(), Err("Port name must not be empty".to_string()));
}

#[test]
fn validate_rejects_transport_channel() {
    let mut s = Settings::default();
    s.transport_channel = 16;
    assert_eq!(s.validate(), Err("Transport MIDI channel must be 0-15 (found 16)".to_string()));
    s.transport_channel = 15;
    assert_eq!(s.validate(), Ok(()));
}

#[test]
fn validate_rejects_transport_cc() {
    let mut s = Settings::default();
    s.transport_cc_map.play = 128;
    assert_eq!(s.validate(), Err("Transport CC for play must be 0-127 (found 128)".to_string()));
    let mut s = Settings::default();
    s.transport_cc_map.tap = 200;
    s.transport_cc_map.follow = 255;
    assert_eq!(s.validate(), Err("Transport CC for tap must be 0-127 (found 200)".to_string()));
    let mut s = Settings::default();
    s.transport_cc_map.follow = 255;
    assert_eq!(s.validate(), Err("Transport CC for follow must be 0-127 (found 255)".to_string()));
}

#[test]
fn validate_reports_first_failure() {
    let mut s = Settings::default();
    s.notemaps.push(200);
    s.client_name = String::new();
    s.transport_channel = 99;
    assert_eq!(s.validate(), Err("The should be 16 pads exactly (found 17)".to_string()));
    s.notemaps.pop();
    assert_eq!(s.validate(), Err("Client name must not be empty".to_string()));
}

#[test]
fn toggle_modes_match_names() {
    let modes = ButtonModes { toggle: vec!["play".to_string(), "noterepeat".to_string()] };
    assert!(modes.is_toggle("play"));
    assert!(modes.is_toggle("noterepeat"));
    assert!(!modes.is_toggle("stop"));
    assert!(!modes.is_toggle("Play"));
}

#[test]
fn decimal_rendering() {
    assert_eq!(decimal_string(0), "0");
    assert_eq!(decimal_string(7), "7");
    assert_eq!(decimal_string(10), "10");
    assert_eq!(decimal_string(255), "255");
    assert_eq!(decimal_string(1234567890), "1234567890");
    assert_eq!(decimal_string(u64::MAX), u64::MAX.to_string());
}

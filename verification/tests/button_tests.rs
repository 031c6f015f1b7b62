use std::collections::HashMap;

use maschine_driver::button_events::{
    button_channel, get_shift_combination_cc, get_single_button_cc, process_button_event, ButtonState,
    ShiftState,
};
use maschine_driver::controls::{Buttons, PadEventType, BUTTON_SLOTS, NUM_BUTTONS};
use maschine_driver::midi::{ChannelMessage, MidiMessage};
use maschine_driver::settings::Settings;

fn cc(channel: u8, controller: u8, value: u8) -> ChannelMessage {
    ChannelMessage { channel, message: MidiMessage::Controller { controller, value } }
}

struct Rig {
    settings: Settings,
    states: HashMap<u8, ButtonState>,
    shift: ShiftState,
}

impl Rig {
    fn new(settings: Settings) -> Rig {
        Rig { settings, states: HashMap::new(), shift: ShiftState::default() }
    }
    fn event(&mut self, b: Buttons, pressed: bool) -> Vec<ChannelMessage> {
        process_button_event(b, pressed, &mut self.states, &mut self.shift, &self.settings)
    }
}

#[test]
fn button_index_roundtrip() {
    let mut seen = 0;
    for i in 0..BUTTON_SLOTS {
        if let Some(b) = Buttons::from_index(i) {
            assert_eq!(b.index() as usize, i);
            seen += 1;
        }
    }
    assert_eq!(seen, NUM_BUTTONS);
    assert_eq!(Buttons::from_index(0), Some(Buttons::Left));
    assert_eq!(Buttons::from_index(18), Some(Buttons::Shift));
    assert_eq!(Buttons::from_index(40), Some(Buttons::EncoderTouch));
    assert_eq!(Buttons::from_index(41), None);
    assert_eq!(Buttons::from_index(47), None);
}

#[test]
fn button_names_are_lower_case_variant_names() {
    assert_eq!(Buttons::NoteRepeat.name(), "noterepeat");
    assert_eq!(Buttons::FixedVel.name(), "fixedvel");
    assert_eq!(Buttons::EncoderPress.name(), "encoderpress");
    for i in 0..NUM_BUTTONS {
        let b = Buttons::from_index(i).unwrap();
        assert_eq!(b.name(), format!("{:?}", b).to_lowercase());
    }
}

#[test]
fn pad_event_codes() {
    assert_eq!(PadEventType::from_code(0x00), Some(PadEventType::PressOn));
    assert_eq!(PadEventType::from_code(0x10), Some(PadEventType::NoteOn));
    assert_eq!(PadEventType::from_code(0x20), Some(PadEventType::PressOff));
    assert_eq!(PadEventType::from_code(0x30), Some(PadEventType::NoteOff));
    assert_eq!(PadEventType::from_code(0x40), Some(PadEventType::Aftertouch));
    assert_eq!(PadEventType::from_code(0x50), None);
}

#[test]
fn single_and_shift_cc_numbers() {
    let s = Settings::default();
    assert_eq!(get_single_button_cc(Buttons::Left, &s), 20);
    assert_eq!(get_single_button_cc(Buttons::Shift, &s), 38);
    assert_eq!(get_single_button_cc(Buttons::Play, &s), 118);
    assert_eq!(get_single_button_cc(Buttons::EncoderPress, &s), 52);
    assert_eq!(get_shift_combination_cc(Buttons::Left, &s), 60);
    assert_eq!(get_shift_combination_cc(Buttons::Play, &s), 91);
    assert_eq!(get_shift_combination_cc(Buttons::EncoderTouch, &s), 99);
    assert_eq!(get_shift_combination_cc(Buttons::Shift, &s), 38);
}

#[test]
fn channels_by_section() {
    let mut s = Settings::default();
    s.transport_channel = 1;
    s.encoder_channel = 2;
    s.button_channel = 3;
    assert_eq!(button_channel(Buttons::Follow, &s), 1);
    assert_eq!(button_channel(Buttons::EncoderTouch, &s), 2);
    assert_eq!(button_channel(Buttons::Mute, &s), 3);
    assert_eq!(button_channel(Buttons::Shift, &s), 3);
}

#[test]
fn momentary_press_and_release() {
    let mut r = Rig::new(Settings::default());
    assert_eq!(r.event(Buttons::Play, true), vec![cc(0, 118, 127)]);
    assert_eq!(r.event(Buttons::Play, false), vec![cc(0, 118, 0)]);
    assert_eq!(r.states[&Buttons::Play.index()], ButtonState {
        physical_pressed: false,
        toggle_state: false,
        last_sent_value: 0
    });
}

#[test]
fn repeated_state_is_ignored() {
    let mut r = Rig::new(Settings::default());
    assert_eq!(r.event(Buttons::Left, false), vec![]);
    assert_eq!(r.states[&Buttons::Left.index()], ButtonState::default());
    assert_eq!(r.event(Buttons::Left, true), vec![cc(0, 20, 127)]);
    assert_eq!(r.event(Buttons::Left, true), vec![]);
}

#[test]
fn shift_alone_sends_on_release() {
    let mut r = Rig::new(Settings::default());
    assert_eq!(r.event(Buttons::Shift, true), vec![]);
    assert!(r.shift.pressed);
    assert_eq!(r.event(Buttons::Shift, false), vec![cc(0, 38, 127), cc(0, 38, 0)]);
    assert_eq!(r.shift, ShiftState::default());
}

#[test]
fn shift_as_modifier() {
    let mut r = Rig::new(Settings::default());
    assert_eq!(r.event(Buttons::Shift, true), vec![]);
    assert_eq!(r.event(Buttons::Left, true), vec![cc(0, 60, 127)]);
    assert!(r.shift.used_as_modifier);
    assert_eq!(r.event(Buttons::Left, false), vec![cc(0, 60, 0)]);
    assert_eq!(r.event(Buttons::Shift, false), vec![]);
    assert_eq!(r.shift, ShiftState::default());
    assert_eq!(r.event(Buttons::Left, true), vec![cc(0, 20, 127)]);
}

#[test]
fn release_after_shift_uses_shift_cc_while_held() {
    let mut r = Rig::new(Settings::default());
    assert_eq!(r.event(Buttons::Left, true), vec![cc(0, 20, 127)]);
    assert_eq!(r.event(Buttons::Shift, true), vec![]);
    assert_eq!(r.event(Buttons::Left, false), vec![cc(0, 60, 0)]);
    assert!(!r.shift.used_as_modifier);
    assert_eq!(r.event(Buttons::Shift, false), vec![cc(0, 38, 127), cc(0, 38, 0)]);
}

#[test]
fn toggle_button_latches() {
    let mut s = Settings::default();
    s.button_modes.toggle = vec!["rec".to_string()];
    s.transport_channel = 4;
    let mut r = Rig::new(s);
    assert_eq!(r.event(Buttons::Rec, true), vec![cc(4, 119, 127)]);
    assert_eq!(r.event(Buttons::Rec, false), vec![]);
    assert_eq!(r.event(Buttons::Rec, true), vec![cc(4, 119, 0)]);
    assert_eq!(r.event(Buttons::Rec, false), vec![]);
    assert_eq!(r.event(Buttons::Rec, true), vec![cc(4, 119, 127)]);
}

#[test]
fn encoder_buttons_on_encoder_channel() {
    let mut s = Settings::default();
    s.encoder_channel = 9;
    let mut r = Rig::new(s);
    assert_eq!(r.event(Buttons::EncoderTouch, true), vec![cc(9, 53, 127)]);
    assert_eq!(r.event(Buttons::EncoderPress, true), vec![cc(9, 52, 127)]);
}

#[test]
fn default_mappings_are_eighty_distinct_numbers() {
    let s = Settings::default();
    let mut all: Vec<u8> = Vec::new();
    for i in 0..NUM_BUTTONS {
        let b = Buttons::from_index(i).unwrap();
        if b != Buttons::Shift {
            all.push(get_single_button_cc(b, &s));
            all.push(get_shift_combination_cc(b, &s));
        }
    }
    all.sort();
    all.dedup();
    assert_eq!(all.len(), 80);
}

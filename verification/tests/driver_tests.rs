use maschine_driver::controls::{Brightness, Buttons};
use maschine_driver::driver::{Driver, Output, PadFault};
use maschine_driver::midi::{ChannelMessage, MidiMessage};
use maschine_driver::report::REPORT_LEN;
use maschine_driver::settings::Settings;

fn cc(channel: u8, controller: u8, value: u8) -> Output {
    Output::Midi(ChannelMessage { channel, message: MidiMessage::Controller { controller, value } })
}

fn button_report(pressed: &[Buttons], encoder: u8, slider: u8) -> Vec<u8> {
    let mut r = vec![0u8; REPORT_LEN];
    r[0] = 1;
    for b in pressed {
        let i = b.index() as usize;
        r[1 + i / 8] |= 1 << (i % 8);
    }
    r[7] = encoder;
    r[10] = slider;
    r
}

fn is_midi(o: &Output) -> bool {
    matches!(o, Output::Midi(_))
}

#[test]
fn new_driver_is_idle() {
    let d = Driver::new();
    assert!(d.button_states.is_empty());
    assert!(!d.shift_state.pressed);
    assert_eq!((d.prev_encoder, d.prev_slider), (0, 0));
}

#[test]
fn press_play_then_repeat() {
    let s = Settings::default();
    let mut d = Driver::new();
    let r = button_report(&[Buttons::Play], 0, 0);
    let a = d.handle_report(&r, &s);
    assert_eq!(a.fault, None);
    assert_eq!(a.outputs, vec![Output::ButtonLight { button: Buttons::Play, on: true }, cc(0, 118, 127)]);
    assert_eq!(d.button_states.len(), 41);
    let b = d.handle_report(&r, &s);
    assert_eq!(b.outputs, vec![]);
    let c = d.handle_report(&button_report(&[], 0, 0), &s);
    assert_eq!(c.outputs, vec![Output::ButtonLight { button: Buttons::Play, on: false }, cc(0, 118, 0)]);
}

#[test]
fn shift_combination_in_one_report() {
    let s = Settings::default();
    let mut d = Driver::new();
    let a = d.handle_report(&button_report(&[Buttons::Shift, Buttons::Play], 0, 0), &s);
    let midi: Vec<Output> = a.outputs.into_iter().filter(is_midi).collect();
    assert_eq!(midi, vec![cc(0, 91, 127)]);
    // Shift's bit comes before Play's: Shift is already up when Play's
    // release is handled, so the release goes out on Play's own CC.
    let b = d.handle_report(&button_report(&[], 0, 0), &s);
    let midi: Vec<Output> = b.outputs.into_iter().filter(is_midi).collect();
    assert_eq!(midi, vec![cc(0, 118, 0)]);
}

#[test]
fn encoder_rotation() {
    let mut s = Settings::default();
    s.encoder_channel = 5;
    let mut d = Driver::new();
    let a = d.handle_report(&button_report(&[], 3, 0), &s);
    assert_eq!(a.outputs, vec![cc(5, 54, 3)]);
    assert_eq!(d.prev_encoder, 3);
    let b = d.handle_report(&button_report(&[], 3, 0), &s);
    assert_eq!(b.outputs, vec![]);
    let c = d.handle_report(&button_report(&[], 0, 0), &s);
    assert_eq!(c.outputs, vec![]);
    assert_eq!(d.prev_encoder, 3);
    let e = d.handle_report(&button_report(&[], 4, 0), &s);
    assert_eq!(e.outputs, vec![cc(5, 54, 4)]);
}

#[test]
fn touch_strip() {
    let s = Settings::default();
    let mut d = Driver::new();
    let a = d.handle_report(&button_report(&[], 0, 100), &s);
    assert_eq!(a.outputs.len(), 26);
    assert_eq!(a.outputs[0], cc(0, 1, 63));
    assert_eq!(a.outputs[1], Output::SliderLight { led: 0, level: Brightness::Dim });
    assert_eq!(a.outputs[13], Output::SliderLight { led: 12, level: Brightness::Normal });
    assert_eq!(a.outputs[14], Output::SliderLight { led: 13, level: Brightness::Off });
    let b = d.handle_report(&button_report(&[], 0, 100), &s);
    assert_eq!(b.outputs.len(), 25);
    assert!(!b.outputs.iter().any(is_midi));
    let c = d.handle_report(&button_report(&[], 0, 0), &s);
    assert_eq!(c.outputs, vec![cc(0, 1, 0)]);
    assert_eq!(d.prev_slider, 0);
}

fn pad_report(entries: &[(u8, u8, u16)]) -> Vec<u8> {
    let mut r = vec![0u8; REPORT_LEN];
    r[0] = 2;
    for (k, (pad, event, value)) in entries.iter().enumerate() {
        r[1 + 3 * k] = *pad;
        r[2 + 3 * k] = event | ((value >> 8) as u8 & 0x0f);
        r[3 + 3 * k] = (*value & 0xff) as u8;
    }
    r
}

#[test]
fn pad_hit_and_release() {
    let s = Settings::default();
    let mut d = Driver::new();
    let a = d.handle_report(&pad_report(&[(2, 0x10, 2048), (2, 0x40, 100), (2, 0x30, 0)]), &s);
    assert_eq!(a.fault, None);
    assert_eq!(
        a.outputs,
        vec![
            Output::PadLight { pad: 2, level: Brightness::Normal },
            Output::Midi(ChannelMessage { channel: 0, message: MidiMessage::NoteOn { key: 31, vel: 64 } }),
            Output::PadLight { pad: 2, level: Brightness::Normal },
            Output::Midi(ChannelMessage { channel: 0, message: MidiMessage::Aftertouch { key: 31, vel: 3 } }),
            Output::PadLight { pad: 2, level: Brightness::Off },
            Output::Midi(ChannelMessage { channel: 0, message: MidiMessage::NoteOff { key: 31, vel: 0 } }),
        ]
    );
    assert!(d.button_states.is_empty());
}

#[test]
fn pad_unknown_event_stops() {
    let s = Settings::default();
    let mut d = Driver::new();
    let a = d.handle_report(&pad_report(&[(0, 0x10, 32), (1, 0x70, 5), (2, 0x10, 32)]), &s);
    assert_eq!(a.fault, Some(PadFault::UnknownEvent { code: 0x70 }));
    assert_eq!(a.outputs.len(), 2);
}

#[test]
fn pad_without_note_stops() {
    let s = Settings::default();
    let mut d = Driver::new();
    let a = d.handle_report(&pad_report(&[(16, 0x10, 32)]), &s);
    assert_eq!(a.fault, Some(PadFault::NoNote { pad: 16 }));
    assert_eq!(a.outputs, vec![]);
}

#[test]
fn other_reports_ignored() {
    let s = Settings::default();
    let mut d = Driver::new();
    let mut r = vec![0xFFu8; REPORT_LEN];
    r[0] = 3;
    let a = d.handle_report(&r, &s);
    assert_eq!(a.outputs, vec![]);
    assert_eq!(a.fault, None);
    assert!(d.button_states.is_empty());
}

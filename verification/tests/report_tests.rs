use maschine_driver::controls::{Brightness, PadEventType};
use maschine_driver::midi::MidiMessage;
use maschine_driver::report::{
    button_bit, pad_brightness, pad_entries, pad_message, pad_velocity, slider_leds, slider_to_midi,
    PadEntry, REPORT_LEN,
};

#[test]
fn button_bits_in_order() {
    let mut r = vec![0u8; REPORT_LEN];
    r[0] = 1;
    r[1] = 0b0000_0101;
    r[6] = 0b1000_0000;
    assert!(button_bit(&r, 0));
    assert!(!button_bit(&r, 1));
    assert!(button_bit(&r, 2));
    assert!(button_bit(&r, 47));
    assert!(!button_bit(&r, 46));
}

#[test]
fn slider_midi_values() {
    assert_eq!(slider_to_midi(0), 0);
    assert_eq!(slider_to_midi(1), 0);
    assert_eq!(slider_to_midi(2), 1);
    assert_eq!(slider_to_midi(100), 63);
    assert_eq!(slider_to_midi(200), 127);
    assert_eq!(slider_to_midi(255), 161);
}

fn levels_of(top: i32) -> Vec<Brightness> {
    (0..25)
        .map(|i| {
            if i == top {
                Brightness::Normal
            } else if i < top && top - i <= 25 {
                Brightness::Dim
            } else {
                Brightness::Off
            }
        })
        .collect()
}

#[test]
fn slider_led_levels() {
    assert_eq!(slider_leds(1), levels_of(-1));
    assert_eq!(slider_leds(4), levels_of(0));
    assert_eq!(slider_leds(100), levels_of(12));
    assert_eq!(slider_leds(200), levels_of(24));
    let top = slider_leds(255);
    assert_eq!(top[0], Brightness::Off);
    assert_eq!(top[6], Brightness::Dim);
    assert_eq!(top[24], Brightness::Dim);
}

#[test]
fn pad_entries_until_terminator() {
    let mut r = vec![0u8; REPORT_LEN];
    r[0] = 2;
    r[1] = 0;
    r[2] = 0x1A;
    r[3] = 0xBC;
    r[4] = 5;
    r[5] = 0x30;
    r[6] = 0x00;
    r[7] = 0;
    r[8] = 0;
    r[9] = 0;
    r[10] = 9;
    r[11] = 0x10;
    r[12] = 1;
    assert_eq!(
        pad_entries(&r),
        vec![
            PadEntry { pad: 0, event: 0x10, value: 0xABC },
            PadEntry { pad: 5, event: 0x30, value: 0 },
        ]
    );
}

#[test]
fn pad_entries_first_entry_zero() {
    let mut r = vec![0u8; REPORT_LEN];
    r[0] = 2;
    assert_eq!(pad_entries(&r), vec![PadEntry { pad: 0, event: 0, value: 0 }]);
}

#[test]
fn pad_entries_full_report() {
    let mut r = vec![0u8; REPORT_LEN];
    r[0] = 2;
    for k in 0..21 {
        r[1 + 3 * k] = 1;
    }
    let e = pad_entries(&r);
    assert_eq!(e.len(), 21);
    assert!(e.iter().all(|x| *x == PadEntry { pad: 1, event: 0, value: 0 }));
}

#[test]
fn pad_velocities() {
    assert_eq!(pad_velocity(0), 0);
    assert_eq!(pad_velocity(1), 1);
    assert_eq!(pad_velocity(31), 1);
    assert_eq!(pad_velocity(64), 2);
    assert_eq!(pad_velocity(1000), 31);
    assert_eq!(pad_velocity(4095), 127);
}

#[test]
fn pad_light_levels() {
    assert_eq!(pad_brightness(PadEventType::NoteOn, 0), Brightness::Normal);
    assert_eq!(pad_brightness(PadEventType::PressOn, 5), Brightness::Normal);
    assert_eq!(pad_brightness(PadEventType::NoteOff, 5), Brightness::Off);
    assert_eq!(pad_brightness(PadEventType::PressOff, 0), Brightness::Off);
    assert_eq!(pad_brightness(PadEventType::Aftertouch, 3), Brightness::Normal);
    assert_eq!(pad_brightness(PadEventType::Aftertouch, 0), Brightness::Off);
}

#[test]
fn pad_note_messages() {
    assert_eq!(pad_message(36, PadEventType::NoteOn, 90), MidiMessage::NoteOn { key: 36, vel: 90 });
    assert_eq!(pad_message(36, PadEventType::PressOn, 9), MidiMessage::NoteOn { key: 36, vel: 9 });
    assert_eq!(pad_message(36, PadEventType::NoteOff, 0), MidiMessage::NoteOff { key: 36, vel: 0 });
    assert_eq!(pad_message(36, PadEventType::PressOff, 1), MidiMessage::NoteOff { key: 36, vel: 1 });
    assert_eq!(pad_message(36, PadEventType::Aftertouch, 50), MidiMessage::Aftertouch { key: 36, vel: 50 });
}

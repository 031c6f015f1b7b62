use maschine_driver::midi::{button_cc_bytes, ChannelMessage, MidiMessage};

#[test]
fn controller_bytes() {
    let m = ChannelMessage { channel: 0, message: MidiMessage::Controller { controller: 20, value: 127 } };
    assert_eq!(m.to_bytes(), vec![0xB0, 20, 127]);
    let m = ChannelMessage { channel: 3, message: MidiMessage::Controller { controller: 1, value: 0 } };
    assert_eq!(m.to_bytes(), vec![0xB3, 1, 0]);
}

#[test]
fn note_bytes() {
    let on = ChannelMessage { channel: 0, message: MidiMessage::NoteOn { key: 49, vel: 100 } };
    assert_eq!(on.to_bytes(), vec![0x90, 49, 100]);
    let at = ChannelMessage { channel: 1, message: MidiMessage::Aftertouch { key: 36, vel: 64 } };
    assert_eq!(at.to_bytes(), vec![0xA1, 36, 64]);
    let off = ChannelMessage { channel: 15, message: MidiMessage::NoteOff { key: 36, vel: 0 } };
    assert_eq!(off.to_bytes(), vec![0x8F, 36, 0]);
}

#[test]
fn out_of_range_values_are_cut() {
    let m = ChannelMessage { channel: 17, message: MidiMessage::Controller { controller: 200, value: 161 } };
    assert_eq!(m.to_bytes(), vec![0xB1, 200 & 0x7F, 161 & 0x7F]);
}

#[test]
fn button_cc_bytes_layout() {
    assert_eq!(button_cc_bytes(118, 127, 2), vec![0xB2, 118, 127]);
    assert_eq!(button_cc_bytes(118, 0, 2), vec![0xB2, 118, 0]);
}

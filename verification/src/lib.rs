//! Verified core of a userspace MIDI driver for the Maschine Mikro MK3
//! controller: configuration and its validation, the decoding of the
//! controller's HID reports, the button state machine (momentary and toggle
//! buttons, Shift combinations) and the MIDI messages that result.

pub mod button_events;
pub mod controls;
pub mod driver;
pub mod midi;
pub mod report;
pub mod settings;
pub mod text;


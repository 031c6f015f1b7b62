use vstd::prelude::*;

use std::collections::HashMap;

use crate::button_events::{
    button_transition, cc_message, process_button_event, state_in, ButtonState, ShiftState,
};
use crate::controls::{button_at, button_index, pad_event_of, Brightness, Buttons};
use crate::midi::{ChannelMessage, MidiMessage};
use crate::report::{
    button_bit, button_bit_set, pad_brightness, pad_entries, pad_entries_of, pad_event_type,
    pad_level, pad_message, pad_note_message, pad_velocity, slider_led_level, slider_leds,
    slider_midi_value, slider_to_midi, velocity_of, PadEntry, BUTTON_REPORT, ENCODER_BYTE,
    PAD_REPORT, REPORT_LEN, SLIDER_BYTE, SLIDER_LEDS,
};
use crate::settings::Settings;

verus! {

broadcast use vstd::std_specs::hash::group_hash_axioms;

/// What the driver does in answer to a report, in order.
#[derive(Clone, Copy, Debug, PartialEq, Eq, Structural)]
pub enum Output {
    /// Send a MIDI message.
    Midi(ChannelMessage),
    /// Light a button's LED (`on`) or turn it off.
    ButtonLight { button: Buttons, on: bool },
    /// Set a touch strip LED.
    SliderLight { led: u8, level: Brightness },
    /// Set a pad's LED.
    PadLight { pad: u8, level: Brightness },
}

/// A pad entry the driver cannot handle; processing of the report stops
/// there.
#[derive(Clone, Copy, Debug, PartialEq, Eq, Structural)]
pub enum PadFault {
    /// The entry's event code names no pad event.
    UnknownEvent { code: u8 },
    /// The entry's pad has no note in the configuration.
    NoNote { pad: u8 },
}

/// The driver's answer to one report.
#[derive(Debug)]
pub struct Reaction {
    /// What to do, in order.
    pub outputs: Vec<Output>,
    /// The pad entry that stopped processing, if any.
    pub fault: Option<PadFault>,
}

/// The state the driver keeps between reports.
#[derive(Debug)]
pub struct Driver {
    /// The state of each button seen so far, by button index.
    pub button_states: HashMap<u8, ButtonState>,
    /// The Shift modifier's state.
    pub shift_state: ShiftState,
    /// The last encoder position that was sent.
    pub prev_encoder: u8,
    /// The last touch strip position that was sent.
    pub prev_slider: u8,
}

/// The driver's state as plain values: button states by index, the Shift
/// state, the last encoder position and the last touch strip position.
pub type DriverState = (Map<u8, ButtonState>, ShiftState, u8, u8);

impl Driver {
    /// The driver's state as plain values.
    pub open spec fn model(&self) -> DriverState {
        (self.button_states@, self.shift_state, self.prev_encoder, self.prev_slider)
    }
}

/// The MIDI messages of a sequence, as outputs.
pub open spec fn midi_outputs(ms: Seq<ChannelMessage>) -> Seq<Output> {
    ms.map_values(|m: ChannelMessage| Output::Midi(m))
}

/// The button bits 0 to `n - 1` of a button report, handled in order from
/// the given button states and Shift state: the states after them and the
/// outputs. Each bit that carries a button lights or darkens the button's
/// LED when its physical state changes, then goes through
/// `button_transition`.
pub open spec fn button_bits_effect(
    states: Map<u8, ButtonState>,
    shift: ShiftState,
    report: Seq<u8>,
    s: Settings,
    n: nat,
) -> (Map<u8, ButtonState>, ShiftState, Seq<Output>)
    decreases n,
{
    if n == 0 {
        (states, shift, seq![])
    } else {
        let prev = button_bits_effect(states, shift, report, s, (n - 1) as nat);
        let idx = n - 1;
        match button_at(idx) {
            None => prev,
            Some(b) => {
                let down = button_bit_set(report, idx);
                let st = state_in(prev.0, b);
                let t = button_transition(st, prev.1, b, down, s);
                let light = if st.physical_pressed != down {
                    seq![Output::ButtonLight { button: b, on: down }]
                } else {
                    seq![]
                };
                (prev.0.insert(button_index(b), t.0), t.1, prev.2 + light + midi_outputs(t.2))
            },
        }
    }
}

/// The touch strip LED outputs for a touched position, LEDs `0` to `n - 1`.
pub open spec fn slider_light_outputs(pos: u8, n: nat) -> Seq<Output> {
    Seq::new(n, |i: int| Output::SliderLight { led: i as u8, level: slider_led_level(pos, i) })
}

/// The encoder part of a button report: a new, non-zero position is sent
/// as a control change on the encoder channel and remembered.
pub open spec fn encoder_effect(prev: u8, report: Seq<u8>, s: Settings) -> (u8, Seq<Output>) {
    let pos = report[ENCODER_BYTE as int];
    if pos != prev && pos != 0 {
        (pos, seq![Output::Midi(cc_message(s.encoder_channel, s.encoder_cc_map.rotation, pos))])
    } else {
        (prev, seq![])
    }
}

/// The touch strip part of a button report: a new position is sent as a
/// control change on the touch strip channel and remembered; a touched
/// position sets the 25 strip LEDs.
pub open spec fn slider_effect(prev: u8, report: Seq<u8>, s: Settings) -> (u8, Seq<Output>) {
    let pos = report[SLIDER_BYTE as int];
    let (next, sent) = if pos != prev {
        (pos, seq![Output::Midi(cc_message(s.touch_strip_channel, s.touch_strip_cc, slider_midi_value(pos)))])
    } else {
        (prev, seq![])
    };
    let lights = if pos != 0 { slider_light_outputs(pos, SLIDER_LEDS as nat) } else { seq![] };
    (next, sent + lights)
}

/// The outputs of one pad entry, or the fault that stops at it.
pub open spec fn pad_entry_effect(e: PadEntry, s: Settings) -> Result<Seq<Output>, PadFault> {
    match pad_event_of(e.event) {
        None => Err(PadFault::UnknownEvent { code: e.event }),
        Some(ev) => if e.pad as int >= s.notemaps@.len() {
            Err(PadFault::NoNote { pad: e.pad })
        } else {
            let light = seq![Output::PadLight { pad: e.pad, level: pad_level(ev, e.value) }];
            let note = s.notemaps@[e.pad as int];
            let m = pad_note_message(note, ev, velocity_of(e.value));
            Ok(light + seq![Output::Midi(ChannelMessage { channel: 0, message: m })])
        },
    }
}

/// The outputs of the first `n` pad entries, in order, and the fault of
/// the first entry among them that cannot be handled (after which nothing is
/// output).
pub open spec fn pad_entries_effect(entries: Seq<PadEntry>, s: Settings, n: nat) -> (Seq<Output>, Option<PadFault>)
    decreases n,
{
    if n == 0 {
        (seq![], None)
    } else {
        let prev = pad_entries_effect(entries, s, (n - 1) as nat);
        if prev.1 is Some {
            prev
        } else {
            match pad_entry_effect(entries[n - 1], s) {
                Ok(out) => (prev.0 + out, None),
                Err(f) => (prev.0, Some(f)),
            }
        }
    }
}

/// Once an entry faults, later entries change nothing: neither the outputs
/// nor the fault.
pub proof fn lemma_pad_fault_persists(entries: Seq<PadEntry>, s: Settings, n: nat, m: nat)
    requires
        n <= m,
        pad_entries_effect(entries, s, n).1 is Some,
    ensures
        pad_entries_effect(entries, s, m) == pad_entries_effect(entries, s, n),
    decreases m - n,
{
    if n < m {
        lemma_pad_fault_persists(entries, s, n, (m - 1) as nat);
    }
}

/// The driver's answer to a report, from a state: the next state, the
/// outputs and the fault, if any. A button report goes through the 48
/// button bits, then the encoder, then the touch strip; a pad report through
/// its pad entries; any other report changes nothing.
pub open spec fn report_effect(st: DriverState, report: Seq<u8>, s: Settings) -> (DriverState, Seq<Output>, Option<PadFault>) {
    if report[0] == BUTTON_REPORT {
        let bits = button_bits_effect(st.0, st.1, report, s, 48);
        let enc = encoder_effect(st.2, report, s);
        let sl = slider_effect(st.3, report, s);
        ((bits.0, bits.1, enc.0, sl.0), bits.2 + enc.1 + sl.1, None)
    } else if report[0] == PAD_REPORT {
        let entries = pad_entries_of(report);
        let p = pad_entries_effect(entries, s, entries.len());
        (st, p.0, p.1)
    } else {
        (st, seq![], None)
    }
}

/// After the first `n` button bits of a report, every button among them is
/// recorded with the physical state its bit shows.
proof fn lemma_bits_record_physical_state(
    states: Map<u8, ButtonState>,
    shift: ShiftState,
    report: Seq<u8>,
    s: Settings,
    n: nat,
    b: Buttons,
)
    requires
        n <= 48,
        (button_index(b) as int) < n,
    ensures
        button_bits_effect(states, shift, report, s, n).0.contains_key(button_index(b)),
        button_bits_effect(states, shift, report, s, n).0[button_index(b)].physical_pressed
            == button_bit_set(report, button_index(b) as int),
    decreases n,
{
    crate::controls::lemma_button_index_roundtrip(b, (n - 1) as int);
    if button_index(b) as int != n - 1 {
        lemma_bits_record_physical_state(states, shift, report, s, (n - 1) as nat, b);
    }
}

/// Button bits that all repeat the recorded physical states change nothing
/// and output nothing.
proof fn lemma_bits_without_change(
    states: Map<u8, ButtonState>,
    shift: ShiftState,
    report: Seq<u8>,
    s: Settings,
    n: nat,
)
    requires
        n <= 48,
        forall|b: Buttons| (button_index(b) as int) < 48 ==> #[trigger] states.contains_key(button_index(b))
            && states[button_index(b)].physical_pressed == button_bit_set(report, button_index(b) as int),
    ensures
        button_bits_effect(states, shift, report, s, n) == (states, shift, Seq::<Output>::empty()),
    decreases n,
{
    if n > 0 {
        lemma_bits_without_change(states, shift, report, s, (n - 1) as nat);
        match button_at(n - 1) {
            None => {},
            Some(b) => {
                crate::controls::lemma_button_index_roundtrip(b, n - 1);
                let st = state_in(states, b);
                assert(states.contains_key(button_index(b)));
                crate::button_events::lemma_repeated_state_is_ignored(st, shift, b, button_bit_set(report, n - 1), s);
                assert(states.insert(button_index(b), st) =~= states);
                assert(midi_outputs(Seq::<ChannelMessage>::empty()) =~= Seq::<Output>::empty());
                assert(Seq::<Output>::empty() + Seq::<Output>::empty() + Seq::<Output>::empty() =~= Seq::<Output>::empty());
            },
        }
    }
}

/// A button report handled a second time in a row changes no button state,
/// sends no MIDI message and changes no button LED: the driver answers
/// changes only. (The touch strip LEDs are set again while the strip is
/// touched.)
pub proof fn lemma_repeated_button_report_is_quiet(st: DriverState, report: Seq<u8>, s: Settings)
    requires
        report.len() == REPORT_LEN,
        report[0] == BUTTON_REPORT,
    ensures
        ({
            let first = report_effect(st, report, s);
            let second = report_effect(first.0, report, s);
            &&& second.0 == first.0
            &&& forall|i: int| 0 <= i < second.1.len() ==> #[trigger] second.1[i] is SliderLight
            &&& second.2 is None
        }),
{
    let first = report_effect(st, report, s);
    let bits = button_bits_effect(st.0, st.1, report, s, 48);
    assert forall|b: Buttons| (button_index(b) as int) < 48 implies #[trigger] bits.0.contains_key(button_index(b))
        && bits.0[button_index(b)].physical_pressed == button_bit_set(report, button_index(b) as int) by {
        lemma_bits_record_physical_state(st.0, st.1, report, s, 48, b);
    }
    lemma_bits_without_change(bits.0, bits.1, report, s, 48);
    let second = report_effect(first.0, report, s);
    let enc2 = encoder_effect(first.0.2, report, s);
    let sl2 = slider_effect(first.0.3, report, s);
    assert(enc2.1 =~= Seq::<Output>::empty());
    let pos = report[SLIDER_BYTE as int];
    let lights = if pos != 0 { slider_light_outputs(pos, SLIDER_LEDS as nat) } else { Seq::<Output>::empty() };
    assert(sl2.1 =~= lights);
    assert(second.1 =~= lights);
}

/// A button report whose touch strip position differs from the last one
/// sent sends, after the button and encoder outputs, one control change on
/// the touch strip channel (whatever the other channels are) with the touch
/// strip CC number and the position scaled from 0..200 to 0..127 (0 when the
/// strip is untouched), and remembers the position; a position equal to the
/// last one sent sends no control change for the strip.
pub proof fn lemma_touch_strip_sends_on_its_channel(st: DriverState, report: Seq<u8>, s: Settings)
    requires
        report.len() == REPORT_LEN,
        report[0] == BUTTON_REPORT,
    ensures
        ({
            let pos = report[SLIDER_BYTE as int];
            let e = report_effect(st, report, s);
            let value: u8 = if pos == 0 { 0 } else { (pos * 127 / 200) as u8 };
            let strip_cc = Output::Midi(ChannelMessage {
                channel: s.touch_strip_channel,
                message: MidiMessage::Controller { controller: s.touch_strip_cc, value },
            });
            let before = button_bits_effect(st.0, st.1, report, s, 48).2 + encoder_effect(st.2, report, s).1;
            &&& pos != st.3 ==> {
                &&& e.1.len() > before.len()
                &&& e.1[before.len() as int] == strip_cc
                &&& e.0.3 == pos
            }
            &&& pos == st.3 ==> e.0.3 == st.3 && e.1.len() == before.len() + (if pos != 0 { SLIDER_LEDS as int } else { 0 })
        }),
{
    let pos = report[SLIDER_BYTE as int];
    let bits = button_bits_effect(st.0, st.1, report, s, 48);
    let enc = encoder_effect(st.2, report, s);
    let sl = slider_effect(st.3, report, s);
    let before = bits.2 + enc.1;
    let e = report_effect(st, report, s);
    assert(e.1 == before + sl.1);
    if pos != st.3 {
        assert(sl.1[0] == Output::Midi(cc_message(s.touch_strip_channel, s.touch_strip_cc, slider_midi_value(pos))));
        assert(e.1[before.len() as int] == sl.1[0]);
    }
}

/// The encoder position of a button report is sent, right after the
/// button outputs, as one control change on the encoder channel with the
/// encoder's rotation CC number and the position as value, exactly when it
/// is nonzero and differs from the last position sent; it then becomes the
/// last position sent. Otherwise the encoder sends nothing and the last
/// position is kept.
pub proof fn lemma_encoder_sends_new_positions(st: DriverState, report: Seq<u8>, s: Settings)
    requires
        report.len() == REPORT_LEN,
        report[0] == BUTTON_REPORT,
    ensures
        ({
            let pos = report[ENCODER_BYTE as int];
            let e = report_effect(st, report, s);
            let before = button_bits_effect(st.0, st.1, report, s, 48).2;
            let strip = slider_effect(st.3, report, s).1;
            &&& pos != 0 && pos != st.2 ==> {
                &&& e.1.len() == before.len() + 1 + strip.len()
                &&& e.1[before.len() as int] == Output::Midi(ChannelMessage {
                    channel: s.encoder_channel,
                    message: MidiMessage::Controller { controller: s.encoder_cc_map.rotation, value: pos },
                })
                &&& e.0.2 == pos
            }
            &&& !(pos != 0 && pos != st.2) ==> e.1 == before + strip && e.0.2 == st.2
        }),
{
    let bits = button_bits_effect(st.0, st.1, report, s, 48);
    let enc = encoder_effect(st.2, report, s);
    let sl = slider_effect(st.3, report, s);
    let e = report_effect(st, report, s);
    assert(e.1 == bits.2 + enc.1 + sl.1);
    if !(report[ENCODER_BYTE as int] != 0 && report[ENCODER_BYTE as int] != st.2) {
        assert(enc.1 =~= Seq::<Output>::empty());
        assert(bits.2 + enc.1 =~= bits.2);
    }
}

/// A report that is neither a button report nor a pad report changes
/// nothing and outputs nothing.
pub proof fn lemma_other_reports_are_ignored(st: DriverState, report: Seq<u8>, s: Settings)
    requires
        report.len() == REPORT_LEN,
        report[0] != BUTTON_REPORT,
        report[0] != PAD_REPORT,
    ensures
        report_effect(st, report, s) == (st, Seq::<Output>::empty(), Option::<PadFault>::None),
{
}

/// A pad report changes none of the driver's state.
pub proof fn lemma_pad_report_keeps_state(st: DriverState, report: Seq<u8>, s: Settings)
    requires
        report.len() == REPORT_LEN,
        report[0] == PAD_REPORT,
    ensures
        report_effect(st, report, s).0 == st,
{
}

/// A pad hit or pressed with some pressure lights the pad's LED and sends
/// the pad's note on channel 0 with a velocity from 1 to 127; a release turns
/// the LED off and sends a note off; a change of pressure keeps the LED lit
/// while there is pressure and sends the pressure as polyphonic aftertouch.
pub proof fn lemma_pad_hit_sends_note(e: PadEntry, s: Settings)
    requires
        e.value < 4096,
        (e.pad as int) < s.notemaps@.len(),
        pad_event_of(e.event) is Some,
    ensures
        ({
            let ev = pad_event_of(e.event)->0;
            let note = s.notemaps@[e.pad as int];
            let vel = velocity_of(e.value);
            &&& (ev == crate::controls::PadEventType::NoteOn || ev == crate::controls::PadEventType::PressOn) && e.value > 0 ==> {
                &&& pad_entry_effect(e, s) == Ok::<Seq<Output>, PadFault>(seq![
                    Output::PadLight { pad: e.pad, level: Brightness::Normal },
                    Output::Midi(ChannelMessage { channel: 0, message: MidiMessage::NoteOn { key: note, vel } }),
                ])
                &&& 1 <= vel <= 127
            }
            &&& (ev == crate::controls::PadEventType::NoteOff || ev == crate::controls::PadEventType::PressOff) ==>
                pad_entry_effect(e, s) == Ok::<Seq<Output>, PadFault>(seq![
                    Output::PadLight { pad: e.pad, level: Brightness::Off },
                    Output::Midi(ChannelMessage { channel: 0, message: MidiMessage::NoteOff { key: note, vel } }),
                ])
            &&& ev == crate::controls::PadEventType::Aftertouch ==>
                pad_entry_effect(e, s) == Ok::<Seq<Output>, PadFault>(seq![
                    Output::PadLight {
                        pad: e.pad,
                        level: if e.value > 0 { Brightness::Normal } else { Brightness::Off },
                    },
                    Output::Midi(ChannelMessage { channel: 0, message: MidiMessage::Aftertouch { key: note, vel } }),
                ])
        }),
{
    let ev = pad_event_of(e.event)->0;
    let note = s.notemaps@[e.pad as int];
    let vel = velocity_of(e.value);
    let light = seq![Output::PadLight { pad: e.pad, level: pad_level(ev, e.value) }];
    let m = pad_note_message(note, ev, vel);
    assert(light + seq![Output::Midi(ChannelMessage { channel: 0, message: m })] =~= seq![
        Output::PadLight { pad: e.pad, level: pad_level(ev, e.value) },
        Output::Midi(ChannelMessage { channel: 0, message: m }),
    ]);
}

impl Driver {
    /// A driver that has seen no report: no button known, Shift up and
    /// unused, encoder and touch strip at 0.
    pub fn new() -> (d: Driver)
        ensures
            d.button_states@ == Map::<u8, ButtonState>::empty(),
            d.shift_state == crate::button_events::initial_shift_state(),
            d.prev_encoder == 0,
            d.prev_slider == 0,
    {
        Driver {
            button_states: HashMap::new(),
            shift_state: ShiftState::default(),
            prev_encoder: 0,
            prev_slider: 0,
        }
    }

    /// Handles the 48 button bits of a button report.
    fn handle_button_bits(&mut self, report: &[u8], settings: &Settings, outputs: &mut Vec<Output>)
        requires
            report@.len() == REPORT_LEN,
        ensures
            ({
                let e = button_bits_effect(
                    old(self).button_states@,
                    old(self).shift_state,
                    report@,
                    *settings,
                    48,
                );
                &&& final(self).button_states@ == e.0
                &&& final(self).shift_state == e.1
                &&& final(outputs)@ == old(outputs)@ + e.2
                &&& final(self).prev_encoder == old(self).prev_encoder
                &&& final(self).prev_slider == old(self).prev_slider
            }),
    {
        let ghost states0 = self.button_states@;
        let ghost shift0 = self.shift_state;
        let ghost out0 = outputs@;
        let mut idx: usize = 0;
        while idx < 48
            invariant
                report@.len() == REPORT_LEN,
                idx <= 48,
                self.prev_encoder == old(self).prev_encoder,
                self.prev_slider == old(self).prev_slider,
                states0 == old(self).button_states@,
                shift0 == old(self).shift_state,
                out0 == old(outputs)@,
                ({
                    let e = button_bits_effect(states0, shift0, report@, *settings, idx as nat);
                    &&& self.button_states@ == e.0
                    &&& self.shift_state == e.1
                    &&& outputs@ == out0 + e.2
                }),
            decreases 48 - idx,
        {
            let ghost prev = button_bits_effect(states0, shift0, report@, *settings, idx as nat);
            match Buttons::from_index(idx) {
                None => {},
                Some(button) => {
                    let status = button_bit(report, idx);
                    let was_down = match self.button_states.get(&button.index()) {
                        Some(st) => st.physical_pressed,
                        None => false,
                    };
                    assert(was_down == state_in(prev.0, button).physical_pressed);
                    let ghost before = outputs@;
                    if was_down != status {
                        outputs.push(Output::ButtonLight { button, on: status });
                    }
                    let ghost with_light = outputs@;
                    let sent = process_button_event(
                        button,
                        status,
                        &mut self.button_states,
                        &mut self.shift_state,
                        settings,
                    );
                    let mut k: usize = 0;
                    while k < sent.len()
                        invariant
                            k <= sent@.len(),
                            outputs@ == with_light + midi_outputs(sent@.subrange(0, k as int)),
                        decreases sent@.len() - k,
                    {
                        outputs.push(Output::Midi(sent[k]));
                        assert(midi_outputs(sent@.subrange(0, k + 1)) =~= midi_outputs(sent@.subrange(0, k as int)).push(Output::Midi(sent@[k as int])));
                        k = k + 1;
                    }
                    assert(sent@.subrange(0, sent@.len() as int) =~= sent@);
                    let ghost light = if state_in(prev.0, button).physical_pressed != status {
                        seq![Output::ButtonLight { button, on: status }]
                    } else {
                        Seq::<Output>::empty()
                    };
                    assert(with_light =~= before + light);
                    assert(outputs@ =~= out0 + (prev.2 + light + midi_outputs(sent@)));
                },
            }
            idx = idx + 1;
        }
    }

    /// Handles the encoder and the touch strip of a button report.
    fn handle_encoder_and_slider(&mut self, report: &[u8], settings: &Settings, outputs: &mut Vec<Output>)
        requires
            report@.len() == REPORT_LEN,
        ensures
            ({
                let enc = encoder_effect(old(self).prev_encoder, report@, *settings);
                let sl = slider_effect(old(self).prev_slider, report@, *settings);
                &&& final(self).prev_encoder == enc.0
                &&& final(self).prev_slider == sl.0
                &&& final(outputs)@ == old(outputs)@ + enc.1 + sl.1
                &&& final(self).button_states@ == old(self).button_states@
                &&& final(self).shift_state == old(self).shift_state
            }),
    {
        let encoder_val = report[ENCODER_BYTE];
        if encoder_val != self.prev_encoder && encoder_val != 0 {
            self.prev_encoder = encoder_val;
            outputs.push(Output::Midi(ChannelMessage {
                channel: settings.encoder_channel,
                message: MidiMessage::Controller {
                    controller: settings.encoder_cc_map.rotation,
                    value: encoder_val,
                },
            }));
        }

        let slider_val = report[SLIDER_BYTE];
        if slider_val != self.prev_slider {
            self.prev_slider = slider_val;
            let midi_val = slider_to_midi(slider_val);
            outputs.push(Output::Midi(ChannelMessage {
                channel: settings.touch_strip_channel,
                message: MidiMessage::Controller { controller: settings.touch_strip_cc, value: midi_val },
            }));
        }
        let ghost after_cc = outputs@;

        if slider_val != 0 {
            let levels = slider_leds(slider_val);
            let mut i: usize = 0;
            while i < SLIDER_LEDS
                invariant
                    i <= SLIDER_LEDS,
                    slider_val != 0,
                    levels@.len() == SLIDER_LEDS,
                    forall|j: int| 0 <= j < SLIDER_LEDS ==> levels@[j] == slider_led_level(slider_val, j),
                    outputs@ == after_cc + slider_light_outputs(slider_val, i as nat),
                decreases SLIDER_LEDS - i,
            {
                outputs.push(Output::SliderLight { led: i as u8, level: levels[i] });
                assert(slider_light_outputs(slider_val, (i + 1) as nat) =~= slider_light_outputs(slider_val, i as nat).push(Output::SliderLight { led: i as u8, level: levels@[i as int] }));
                i = i + 1;
            }
        } else {
            assert(outputs@ =~= after_cc + Seq::<Output>::empty());
        }
        assert(outputs@ =~= old(outputs)@ + encoder_effect(old(self).prev_encoder, report@, *settings).1
            + slider_effect(old(self).prev_slider, report@, *settings).1);
    }

    /// Handles the pad entries of a pad report.
    fn handle_pads(&self, report: &[u8], settings: &Settings, outputs: &mut Vec<Output>) -> (fault: Option<PadFault>)
        requires
            report@.len() == REPORT_LEN,
        ensures
            ({
                let entries = pad_entries_of(report@);
                let p = pad_entries_effect(entries, *settings, entries.len());
                &&& final(outputs)@ == old(outputs)@ + p.0
                &&& fault == p.1
            }),
    {
        let entries = pad_entries(report);
        let ghost out0 = outputs@;
        let mut n: usize = 0;
        while n < entries.len()
            invariant
                n <= entries@.len(),
                out0 == old(outputs)@,
                entries@ == pad_entries_of(report@),
                report@.len() == REPORT_LEN,
                ({
                    let p = pad_entries_effect(entries@, *settings, n as nat);
                    &&& outputs@ == out0 + p.0
                    &&& p.1 is None
                }),
            decreases entries@.len() - n,
        {
            let ghost prev = outputs@;
            let e = entries[n];
            let event = match pad_event_type(&e) {
                Some(ev) => ev,
                None => {
                    proof {
                        assert(pad_entries_effect(entries@, *settings, (n + 1) as nat) == (
                        pad_entries_effect(entries@, *settings, n as nat).0,
                        Some(PadFault::UnknownEvent { code: e.event }),
                        ));
                        lemma_pad_fault_persists(entries@, *settings, (n + 1) as nat, entries@.len());
                    }
                    return Some(PadFault::UnknownEvent { code: e.event });
                },
            };
            let pad = e.pad as usize;
            if pad >= settings.notemaps.len() {
                proof {
                    assert(pad_entries_effect(entries@, *settings, (n + 1) as nat) == (
                    pad_entries_effect(entries@, *settings, n as nat).0,
                    Some(PadFault::NoNote { pad: e.pad }),
                    ));
                    lemma_pad_fault_persists(entries@, *settings, (n + 1) as nat, entries@.len());
                }
                return Some(PadFault::NoNote { pad: e.pad });
            }
            let b = pad_brightness(event, e.value);
            outputs.push(Output::PadLight { pad: e.pad, level: b });
            let note = settings.notemaps[pad];
            proof {
                crate::report::lemma_pad_entries_shape(report@, 1);
                assert(entries@[n as int] == crate::report::pad_entry_at(report@, 1 + 3 * n));
                crate::report::lemma_pad_value_fits(report@, 1 + 3 * n);
            }
            let velocity = pad_velocity(e.value);
            let m = pad_message(note, event, velocity);
            outputs.push(Output::Midi(ChannelMessage { channel: 0, message: m }));
            assert(outputs@ =~= prev + pad_entry_effect(entries@[n as int], *settings)->Ok_0);
            n = n + 1;
        }
        None
    }

    /// Handles one HID report read into the 64-byte buffer: updates the
    /// driver's state and returns what to do, as `report_effect` describes.
    pub fn handle_report(&mut self, report: &[u8], settings: &Settings) -> (r: Reaction)
        requires
            report@.len() == REPORT_LEN,
        ensures
            ({
                let e = report_effect(old(self).model(), report@, *settings);
                &&& final(self).model() == e.0
                &&& r.outputs@ == e.1
                &&& r.fault == e.2
            }),
    {
        let mut outputs: Vec<Output> = Vec::new();
        if report[0] == BUTTON_REPORT {
            self.handle_button_bits(report, settings, &mut outputs);
            self.handle_encoder_and_slider(report, settings, &mut outputs);
            Reaction { outputs, fault: None }
        } else if report[0] == PAD_REPORT {
            let fault = self.handle_pads(report, settings, &mut outputs);
            Reaction { outputs, fault }
        } else {
            Reaction { outputs, fault: None }
        }
    }
}

} // verus!

use vstd::prelude::*;

use crate::controls::{pad_event_of, Brightness, PadEventType};
use crate::midi::MidiMessage;

verus! {

/// Length of the buffer that HID reports are read into.
pub const REPORT_LEN: usize = 64;

/// First byte of a report that carries the buttons, the encoder and the
/// touch strip.
pub const BUTTON_REPORT: u8 = 0x01;

/// First byte of a report that carries pad events.
pub const PAD_REPORT: u8 = 0x02;

/// Byte of a button report that holds the encoder's position.
pub const ENCODER_BYTE: usize = 7;

/// Byte of a button report that holds the touch strip's position (0 when
/// untouched, up to 200).
pub const SLIDER_BYTE: usize = 10;

/// Number of LEDs along the touch strip.
pub const SLIDER_LEDS: usize = 25;

/// Whether bit `idx` of the button bits is set: bit `idx % 8` of byte
/// `1 + idx / 8`.
pub open spec fn button_bit_set(report: Seq<u8>, idx: int) -> bool {
    report[1 + idx / 8] & (1u8 << ((idx % 8) as u8)) != 0
}

/// Whether the button at bit `idx` is down in a button report.
pub fn button_bit(report: &[u8], idx: usize) -> (down: bool)
    requires
        report@.len() == REPORT_LEN,
        idx < 48,
    ensures
        down == button_bit_set(report@, idx as int),
{
    let byte = report[1 + idx / 8];
    let shift: u8 = (idx % 8) as u8;
    byte & (1u8 << shift) != 0
}

/// The MIDI value of a touch strip position: 0 when untouched, otherwise the
/// position scaled by 127/200 and rounded down.
pub open spec fn slider_midi_value(pos: u8) -> u8 {
    if pos == 0 {
        0
    } else {
        (pos * 127 / 200) as u8
    }
}

/// Converts a touch strip position (0 to 200) to a MIDI value (0 to 127).
pub fn slider_to_midi(pos: u8) -> (v: u8)
    ensures
        v == slider_midi_value(pos),
{
    if pos == 0 {
        0
    } else {
        ((pos as u16 * 127) / 200) as u8
    }
}

/// The index of the brightest touch strip LED for a touched position `pos`
/// (from 1): -1 when no LED is lit.
pub open spec fn slider_top_led(pos: u8) -> int {
    (pos + 4) * 25 / 200 - 1
}

/// The level of touch strip LED `i` for a touched position: the top LED at
/// normal brightness, the 25 LEDs below it dim, every other one off.
pub open spec fn slider_led_level(pos: u8, i: int) -> Brightness {
    let d = slider_top_led(pos) - i;
    if d == 0 {
        Brightness::Normal
    } else if 1 <= d <= 25 {
        Brightness::Dim
    } else {
        Brightness::Off
    }
}

/// The levels of the 25 touch strip LEDs for a touched position, LED 0
/// first.
pub fn slider_leds(pos: u8) -> (levels: Vec<Brightness>)
    requires
        pos != 0,
    ensures
        levels@.len() == SLIDER_LEDS,
        forall|i: int| 0 <= i < SLIDER_LEDS ==> levels@[i] == slider_led_level(pos, i),
{
    let cnt: i32 = (pos as i32 - 1 + 5) * 25 / 200 - 1;
    assert(cnt == slider_top_led(pos));
    let mut levels: Vec<Brightness> = Vec::new();
    let mut i: i32 = 0;
    while i < 25
        invariant
            0 <= i <= 25,
            cnt == slider_top_led(pos),
            -1 <= cnt <= 31,
            levels@.len() == i,
            forall|j: int| 0 <= j < i ==> levels@[j] == slider_led_level(pos, j),
        decreases 25 - i,
    {
        let d = cnt - i;
        let b = if d == 0 {
            Brightness::Normal
        } else if 1 <= d && d <= 25 {
            Brightness::Dim
        } else {
            Brightness::Off
        };
        levels.push(b);
        i = i + 1;
    }
    levels
}

/// Over the touch strip's range (untouched 0 to full 200) the MIDI value
/// runs from 0 to 127, reaches 127 at the top, and never decreases as the
/// position rises.
pub proof fn lemma_slider_midi_range(pos: u8, higher: u8)
    requires
        pos <= higher <= 200,
    ensures
        slider_midi_value(pos) <= slider_midi_value(higher) <= 127,
        slider_midi_value(200) == 127,
        slider_midi_value(0) == 0,
{
    assert(pos * 127 / 200 <= higher * 127 / 200) by (nonlinear_arith)
        requires
            pos <= higher,
    ;
}

/// For a touched position up to 200 the strip fills from LED 0: every LED
/// below the top one is dim, the top one is at normal brightness, the ones
/// above are off; the top LED is at most the last one (24), and it never
/// moves down as the position rises.
pub proof fn lemma_slider_leds_fill_from_bottom(pos: u8, higher: u8, i: int)
    requires
        1 <= pos <= higher <= 200,
        0 <= i < SLIDER_LEDS,
    ensures
        -1 <= slider_top_led(pos) <= slider_top_led(higher) <= 24,
        i < slider_top_led(pos) ==> slider_led_level(pos, i) == Brightness::Dim,
        i == slider_top_led(pos) ==> slider_led_level(pos, i) == Brightness::Normal,
        i > slider_top_led(pos) ==> slider_led_level(pos, i) == Brightness::Off,
{
    assert((pos + 4) * 25 / 200 <= (higher + 4) * 25 / 200) by (nonlinear_arith)
        requires
            pos <= higher,
    ;
}

/// A pad event with pressure has a velocity from 1 to 127, one without
/// pressure has velocity 0, and more pressure never gives less velocity.
pub proof fn lemma_velocity_range(value: u16, harder: u16)
    requires
        value <= harder < 4096,
    ensures
        value > 0 ==> 1 <= velocity_of(value) <= 127,
        value == 0 ==> velocity_of(value) == 0,
        velocity_of(value) <= velocity_of(harder),
{
}

/// A pad entry's pressure always fits in 12 bits.
pub proof fn lemma_pad_value_fits(report: Seq<u8>, i: int)
    requires
        0 <= i,
        i + 2 < report.len(),
    ensures
        pad_entry_at(report, i).value < 4096,
        pad_entry_at(report, i).event % 16 == 0,
{
}

/// The pad entries of a report are those read at bytes 1, 4, 7, ... before
/// the first all-zero entry after the first one; there are at most 21 of
/// them in a report of 64 bytes.
pub proof fn lemma_pad_entries_shape(report: Seq<u8>, i: int)
    requires
        1 <= i,
        i % 3 == 1,
    ensures
        pad_entries_from(report, i).len() <= if i + 2 < report.len() { (report.len() - i) / 3 } else { 0 },
        forall|k: int| 0 <= k < pad_entries_from(report, i).len() ==>
            #[trigger] pad_entries_from(report, i)[k] == pad_entry_at(report, i + 3 * k)
            && !ends_pad_events(i + 3 * k, pad_entry_at(report, i + 3 * k)),
    decreases report.len() - i,
{
    if i + 2 < report.len() && !ends_pad_events(i, pad_entry_at(report, i)) {
        lemma_pad_entries_shape(report, i + 3);
        let rest = pad_entries_from(report, i + 3);
        let all = pad_entries_from(report, i);
        assert forall|k: int| 0 <= k < all.len() implies #[trigger] all[k] == pad_entry_at(report, i + 3 * k)
            && !ends_pad_events(i + 3 * k, pad_entry_at(report, i + 3 * k)) by {
            if k > 0 {
                assert(all[k] == rest[k - 1]);
                assert(i + 3 + 3 * (k - 1) == i + 3 * k);
            }
        }
    }
}

/// The velocity of a pad pressure is the pressure in steps of 32, rounded
/// down, except that any pressure above 0 gives at least 1: for a pressure
/// of 32 or more, `32 * vel <= value < 32 * (vel + 1)`; for a pressure from
/// 1 to 31 the velocity is 1; for no pressure it is 0.
pub proof fn lemma_velocity_is_pressure_over_32(value: u16)
    requires
        value < 4096,
    ensures
        value >= 32 ==> 32 * velocity_of(value) <= value < 32 * (velocity_of(value) + 1),
        0 < value < 32 ==> velocity_of(value) == 1,
        value == 0 ==> velocity_of(value) == 0,
{
}

/// Button bit `idx` is bit `idx % 8` (counted from the least significant)
/// of byte `1 + idx / 8`.
pub proof fn lemma_button_bit_layout(report: Seq<u8>, idx: int)
    requires
        report.len() == REPORT_LEN,
        0 <= idx < 48,
    ensures
        button_bit_set(report, idx) == ((report[1 + idx / 8] >> ((idx % 8) as u8)) % 2 == 1),
{
    let byte = report[1 + idx / 8];
    let j = (idx % 8) as u8;
    assert(j < 8);
    assert((byte & (1u8 << j) != 0) == ((byte >> j) % 2 == 1)) by (bit_vector)
        requires
            j < 8,
    ;
}

/// The brightest touch strip LED for a touched position `pos` is the one
/// numbered `t` with `200 * (t + 1) <= 25 * (pos + 4) < 200 * (t + 2)`: the
/// strip's 25 LEDs cover the positions in equal steps.
pub proof fn lemma_slider_top_led_steps(pos: u8)
    requires
        pos >= 1,
    ensures
        200 * (slider_top_led(pos) + 1) <= 25 * (pos + 4) < 200 * (slider_top_led(pos) + 2),
{
}

/// One pad event of a pad report.
#[derive(Clone, Copy, Debug, PartialEq, Eq, Structural)]
pub struct PadEntry {
    /// The pad, from 0.
    pub pad: u8,
    /// The event code: the high nibble of the entry's second byte.
    pub event: u8,
    /// The pressure, 12 bits: the low nibble of the second byte, then the
    /// third byte.
    pub value: u16,
}

/// The pad entry at byte `i` of a report.
pub open spec fn pad_entry_at(report: Seq<u8>, i: int) -> PadEntry {
    PadEntry {
        pad: report[i],
        event: (report[i + 1] - report[i + 1] % 16) as u8,
        value: ((report[i + 1] % 16) * 256 + report[i + 2]) as u16,
    }
}

/// Whether an entry marks the end of the events (an all-zero entry after the
/// first one).
pub open spec fn ends_pad_events(i: int, e: PadEntry) -> bool {
    i > 1 && e.pad == 0 && e.event == 0 && e.value == 0
}

/// The pad entries of a report from byte `i` on, in steps of three bytes,
/// up to the last complete entry of the report or the first all-zero entry after the first.
pub open spec fn pad_entries_from(report: Seq<u8>, i: int) -> Seq<PadEntry>
    decreases report.len() - i,
{
    if i < 1 || i + 2 >= report.len() {
        seq![]
    } else if ends_pad_events(i, pad_entry_at(report, i)) {
        seq![]
    } else {
        seq![pad_entry_at(report, i)] + pad_entries_from(report, i + 3)
    }
}

/// The pad entries of a pad report, in order.
pub open spec fn pad_entries_of(report: Seq<u8>) -> Seq<PadEntry> {
    pad_entries_from(report, 1)
}

/// Reads the entry at byte `i`.
fn read_pad_entry(report: &[u8], i: usize) -> (e: PadEntry)
    requires
        report@.len() == REPORT_LEN,
        i + 2 < REPORT_LEN,
    ensures
        e == pad_entry_at(report@, i as int),
{
    let b1 = report[i + 1];
    let event = b1 & 0xf0;
    assert(((b1 as u16 & 0x0f) << 8) <= 0xf00) by (bit_vector);
    let value = ((b1 as u16 & 0x0f) << 8) + report[i + 2] as u16;
    assert(b1 & 0xf0 == b1 - b1 % 16) by (bit_vector);
    assert(((b1 as u16 & 0x0f) << 8) == (b1 % 16) * 256) by (bit_vector);
    PadEntry { pad: report[i], event, value }
}

/// Whether the three bytes of the pad entry at byte `i` are all zero.
pub open spec fn zero_triple(report: Seq<u8>, i: int) -> bool {
    report[i] == 0 && report[i + 1] == 0 && report[i + 2] == 0
}

/// Whether entry number `j` counted from byte `start` (the one at byte
/// `start + 3 * j`) has a nonzero byte.
pub open spec fn nonzero_entry(report: Seq<u8>, start: int, j: int) -> bool {
    !zero_triple(report, start + 3 * j)
}

proof fn lemma_pad_entries_reach(report: Seq<u8>, i: int, k: int)
    requires
        1 <= i,
        0 <= k,
        i + 3 * k + 2 < report.len(),
        forall|j: int| 0 <= j <= k && i + 3 * j > 1 ==> #[trigger] nonzero_entry(report, i, j),
    ensures
        pad_entries_from(report, i).len() > k,
        pad_entries_from(report, i)[k] == pad_entry_at(report, i + 3 * k),
    decreases k,
{
    let e = pad_entry_at(report, i);
    assert(i > 1 ==> nonzero_entry(report, i, 0));
    assert(!ends_pad_events(i, e));
    if k > 0 {
        assert forall|j: int| 0 <= j <= k - 1 && (i + 3) + 3 * j > 1 implies #[trigger] nonzero_entry(report, i + 3, j) by {
            assert(nonzero_entry(report, i, j + 1));
            assert(i + 3 * (j + 1) == (i + 3) + 3 * j);
        }
        lemma_pad_entries_reach(report, i + 3, k - 1);
        assert(i + 3 + 3 * (k - 1) == i + 3 * k);
    }
}

proof fn lemma_pad_entries_stop(report: Seq<u8>, i: int, k: int)
    requires
        1 <= i,
        0 <= k,
        i + 3 * k > 1,
        i + 3 * k + 2 < report.len(),
        !nonzero_entry(report, i, k),
        forall|j: int| 0 <= j < k && i + 3 * j > 1 ==> #[trigger] nonzero_entry(report, i, j),
    ensures
        pad_entries_from(report, i).len() == k,
    decreases k,
{
    let e = pad_entry_at(report, i);
    if k == 0 {
        assert(ends_pad_events(i, e));
    } else {
        assert(i > 1 ==> nonzero_entry(report, i, 0));
        assert(!ends_pad_events(i, e));
        assert forall|j: int| 0 <= j < k - 1 && (i + 3) + 3 * j > 1 implies #[trigger] nonzero_entry(report, i + 3, j) by {
            assert(nonzero_entry(report, i, j + 1));
            assert(i + 3 * (j + 1) == (i + 3) + 3 * j);
        }
        assert(i + 3 + 3 * (k - 1) == i + 3 * k);
        assert(!nonzero_entry(report, i + 3, k - 1));
        lemma_pad_entries_stop(report, i + 3, k - 1);
    }
}

/// A pad report is read as entries of three bytes from byte 1 on; an entry
/// after the first ends the events only when its three bytes are all zero.
/// So every entry before the first all-zero one (past the first entry) is
/// returned, in order, with its pad (first byte), its event code (high nibble
/// of the second byte, kept in place) and its 12-bit pressure (low nibble of
/// the second byte, then the third byte) — an entry with a nonzero event code
/// or pressure is never dropped — and nothing from the all-zero entry on is
/// returned.
pub proof fn lemma_pad_entries_are_read_until_all_zero_entry(report: Seq<u8>, k: int)
    requires
        report.len() == REPORT_LEN,
        0 <= k,
        1 + 3 * k + 2 < report.len(),
    ensures
        (forall|j: int| 1 <= j <= k ==> #[trigger] nonzero_entry(report, 1, j)) ==> {
            &&& pad_entries_of(report).len() > k
            &&& pad_entries_of(report)[k].pad == report[1 + 3 * k]
            &&& pad_entries_of(report)[k].event == report[2 + 3 * k] / 16 * 16
            &&& pad_entries_of(report)[k].value == (report[2 + 3 * k] % 16) * 256 + report[3 + 3 * k]
        },
        (k >= 1 && !nonzero_entry(report, 1, k) && forall|j: int| 1 <= j < k ==> #[trigger] nonzero_entry(report, 1, j))
            ==> pad_entries_of(report).len() == k,
{
    if forall|j: int| 1 <= j <= k ==> #[trigger] nonzero_entry(report, 1, j) {
        lemma_pad_entries_reach(report, 1, k);
        let b1 = report[2 + 3 * k];
        assert(b1 - b1 % 16 == b1 / 16 * 16);
    }
    if k >= 1 && !nonzero_entry(report, 1, k) && forall|j: int| 1 <= j < k ==> #[trigger] nonzero_entry(report, 1, j) {
        lemma_pad_entries_stop(report, 1, k);
    }
}

/// The pad events of a pad report, in order.
pub fn pad_entries(report: &[u8]) -> (entries: Vec<PadEntry>)
    requires
        report@.len() == REPORT_LEN,
    ensures
        entries@ == pad_entries_of(report@),
{
    let mut entries: Vec<PadEntry> = Vec::new();
    let mut i: usize = 1;
    while i + 2 < report.len()
        invariant
            report@.len() == REPORT_LEN,
            1 <= i <= REPORT_LEN + 2,
            i % 3 == 1,
            entries@ + pad_entries_from(report@, i as int) == pad_entries_of(report@),
        decreases REPORT_LEN + 3 - i,
    {
        let e = read_pad_entry(report, i);
        if i > 1 && e.pad == 0 && e.event == 0 && e.value == 0 {
            assert(entries@ + pad_entries_from(report@, i as int) == entries@);
            return entries;
        }
        let ghost before = entries@;
        entries.push(e);
        assert(before + pad_entries_from(report@, i as int) == entries@ + pad_entries_from(report@, i + 3));
        i = i + 3;
    }
    assert(pad_entries_from(report@, i as int) == Seq::<PadEntry>::empty());
    assert(entries@ + Seq::<PadEntry>::empty() == entries@);
    entries
}

/// The velocity of a pad pressure: the pressure divided by 32, but at least
/// 1 for any pressure above 0.
pub open spec fn velocity_of(value: u16) -> u8 {
    if value > 0 && value / 32 == 0 {
        1
    } else {
        (value / 32) as u8
    }
}

/// The note velocity of a pad pressure (12 bits).
pub fn pad_velocity(value: u16) -> (vel: u8)
    requires
        value < 4096,
    ensures
        vel == velocity_of(value),
        vel <= 127,
{
    let mut velocity = (value >> 5) as u8;
    assert(value >> 5 == value / 32) by (bit_vector);
    if value > 0 && velocity == 0 {
        velocity = 1;
    }
    velocity
}

/// The level of a pad's LED after an event: lit when the pad is hit or
/// pressed, off when released, and, on aftertouch, lit while there is
/// pressure.
pub open spec fn pad_level(event: PadEventType, value: u16) -> Brightness {
    match event {
        PadEventType::NoteOn | PadEventType::PressOn => Brightness::Normal,
        PadEventType::NoteOff | PadEventType::PressOff => Brightness::Off,
        PadEventType::Aftertouch => if value > 0 { Brightness::Normal } else { Brightness::Off },
    }
}

/// The level of a pad's LED after an event.
pub fn pad_brightness(event: PadEventType, value: u16) -> (b: Brightness)
    ensures
        b == pad_level(event, value),
{
    match event {
        PadEventType::NoteOn | PadEventType::PressOn => Brightness::Normal,
        PadEventType::NoteOff | PadEventType::PressOff => Brightness::Off,
        PadEventType::Aftertouch => if value > 0 { Brightness::Normal } else { Brightness::Off },
    }
}

/// The note message of a pad event: note on for a hit or press, note off for
/// a release, polyphonic aftertouch for a change of pressure.
pub open spec fn pad_note_message(note: u8, event: PadEventType, vel: u8) -> MidiMessage {
    match event {
        PadEventType::NoteOn | PadEventType::PressOn => MidiMessage::NoteOn { key: note, vel },
        PadEventType::NoteOff | PadEventType::PressOff => MidiMessage::NoteOff { key: note, vel },
        PadEventType::Aftertouch => MidiMessage::Aftertouch { key: note, vel },
    }
}

/// The note message of a pad event.
pub fn pad_message(note: u8, event: PadEventType, vel: u8) -> (m: MidiMessage)
    ensures
        m == pad_note_message(note, event, vel),
{
    match event {
        PadEventType::NoteOn | PadEventType::PressOn => MidiMessage::NoteOn { key: note, vel },
        PadEventType::NoteOff | PadEventType::PressOff => MidiMessage::NoteOff { key: note, vel },
        PadEventType::Aftertouch => MidiMessage::Aftertouch { key: note, vel },
    }
}

/// The event type of a pad entry, if its code names one.
pub fn pad_event_type(e: &PadEntry) -> (t: Option<PadEventType>)
    ensures
        t == pad_event_of(e.event),
{
    PadEventType::from_code(e.event)
}

} // verus!

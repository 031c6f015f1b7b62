use vstd::prelude::*;

verus! {

/// The channel messages that the driver sends. Data bytes are 7-bit: only
/// their low seven bits reach the wire.
#[derive(Clone, Copy, Debug, PartialEq, Eq, Structural)]
pub enum MidiMessage {
    NoteOff { key: u8, vel: u8 },
    NoteOn { key: u8, vel: u8 },
    Aftertouch { key: u8, vel: u8 },
    Controller { controller: u8, value: u8 },
}

/// A message together with the MIDI channel (0 to 15) it is sent on.
#[derive(Clone, Copy, Debug, PartialEq, Eq, Structural)]
pub struct ChannelMessage {
    pub channel: u8,
    pub message: MidiMessage,
}

/// The high nibble of a message's status byte.
pub open spec fn status_nibble(m: MidiMessage) -> nat {
    match m {
        MidiMessage::NoteOff { .. } => 8,
        MidiMessage::NoteOn { .. } => 9,
        MidiMessage::Aftertouch { .. } => 10,
        MidiMessage::Controller { .. } => 11,
    }
}

/// The two data bytes of a message, before they are cut to seven bits.
pub open spec fn data_bytes(m: MidiMessage) -> (u8, u8) {
    match m {
        MidiMessage::NoteOff { key, vel } => (key, vel),
        MidiMessage::NoteOn { key, vel } => (key, vel),
        MidiMessage::Aftertouch { key, vel } => (key, vel),
        MidiMessage::Controller { controller, value } => (controller, value),
    }
}

/// The bytes of a message on the wire: the status byte, whose high nibble
/// names the message and whose low nibble is the channel (cut to four
/// bits), then the two data bytes cut to seven bits.
pub open spec fn wire_bytes(channel: u8, m: MidiMessage) -> Seq<u8> {
    seq![
        (status_nibble(m) * 16 + channel % 16) as u8,
        data_bytes(m).0 % 128,
        data_bytes(m).1 % 128,
    ]
}

/// Writes a channel message with `midly::live::LiveEvent::write` into a fresh
/// buffer. The contract states what midly's source does for these four
/// messages: the status byte is the message's nibble shifted left by four,
/// or-ed with the channel converted to `u4` (which keeps the low four bits);
/// the data bytes are the arguments converted to `u7` (which keeps the low
/// seven bits); no running status is used. Writing into a `Vec<u8>` cannot
/// fail in midly.
#[verifier::external_body]
fn write_live_event(channel: u8, message: MidiMessage) -> (bytes: Vec<u8>)
    ensures
        bytes@ == wire_bytes(channel, message),
{
    let message = match message {
        MidiMessage::NoteOff { key, vel } => midly::MidiMessage::NoteOff { key: key.into(), vel: vel.into() },
        MidiMessage::NoteOn { key, vel } => midly::MidiMessage::NoteOn { key: key.into(), vel: vel.into() },
        MidiMessage::Aftertouch { key, vel } => midly::MidiMessage::Aftertouch { key: key.into(), vel: vel.into() },
        MidiMessage::Controller { controller, value } => midly::MidiMessage::Controller {
            controller: controller.into(),
            value: value.into(),
        },
    };
    let event = midly::live::LiveEvent::Midi { channel: channel.into(), message };
    let mut buf: Vec<u8> = Vec::new();
    event.write(&mut buf).unwrap();
    buf
}

impl ChannelMessage {
    /// The bytes to hand to a MIDI output port for this message.
    pub fn to_bytes(&self) -> (bytes: Vec<u8>)
        ensures
            bytes@ == wire_bytes(self.channel, self.message),
    {
        write_live_event(self.channel, self.message)
    }
}

/// The bytes of a control change: controller `cc_number` set to `value` on
/// `channel`.
pub fn button_cc_bytes(cc_number: u8, value: u8, channel: u8) -> (bytes: Vec<u8>)
    ensures
        bytes@ == wire_bytes(channel, MidiMessage::Controller { controller: cc_number, value }),
{
    write_live_event(channel, MidiMessage::Controller { controller: cc_number, value })
}

/// The status bytes on the wire, for a channel from 0 to 15: note off
/// `0x80 + channel`, note on `0x90 + channel`, polyphonic aftertouch
/// `0xA0 + channel`, control change `0xB0 + channel`; data bytes are the
/// arguments' low seven bits.
pub proof fn lemma_status_bytes(channel: u8, a: u8, b: u8)
    requires
        channel < 16,
    ensures
        wire_bytes(channel, MidiMessage::NoteOff { key: a, vel: b }) == seq![(0x80 + channel) as u8, a % 128, b % 128],
        wire_bytes(channel, MidiMessage::NoteOn { key: a, vel: b }) == seq![(0x90 + channel) as u8, a % 128, b % 128],
        wire_bytes(channel, MidiMessage::Aftertouch { key: a, vel: b }) == seq![(0xA0 + channel) as u8, a % 128, b % 128],
        wire_bytes(channel, MidiMessage::Controller { controller: a, value: b }) == seq![(0xB0 + channel) as u8, a % 128, b % 128],
{
}

/// On channels 0 to 15 and with data bytes below 128, a message goes on the
/// wire unchanged: status byte `nibble * 16 + channel`, then the data bytes.
pub proof fn lemma_wire_bytes_in_range(channel: u8, m: MidiMessage)
    requires
        channel < 16,
        data_bytes(m).0 < 128,
        data_bytes(m).1 < 128,
    ensures
        wire_bytes(channel, m) == seq![
            (status_nibble(m) * 16 + channel) as u8,
            data_bytes(m).0,
            data_bytes(m).1,
        ],
        wire_bytes(channel, m).len() == 3,
        wire_bytes(channel, m)[0] >= 128,
{
}

} // verus!

use vstd::prelude::*;

verus! {

/// Number of button bits in a button report: six bytes of eight bits.
pub const BUTTON_SLOTS: usize = 48;

/// Number of buttons on the controller (the encoder's press and touch
/// sensors included).
pub const NUM_BUTTONS: usize = 41;

/// The buttons of the controller. A button's index is its bit in a button
/// report (see `button_index`).
#[derive(Clone, Copy, Debug, PartialEq, Eq, Structural, Hash)]
pub enum Buttons {
    Left,
    Right,
    Maschine,
    Star,
    Browse,
    Volume,
    Swing,
    Tempo,
    Plugin,
    Sampling,
    Pitch,
    Mod,
    Perform,
    Notes,
    Group,
    Auto,
    Lock,
    NoteRepeat,
    Shift,
    FixedVel,
    PadMode,
    Keyboard,
    Chords,
    Step,
    Scene,
    Pattern,
    Events,
    Variation,
    Duplicate,
    Select,
    Solo,
    Mute,
    Play,
    Stop,
    Rec,
    Restart,
    Erase,
    Tap,
    Follow,
    EncoderPress,
    EncoderTouch,
}

/// The bit of a button in a button report.
pub open spec fn button_index(b: Buttons) -> u8 {
    match b {
        Buttons::Left => 0u8,
        Buttons::Right => 1u8,
        Buttons::Maschine => 2u8,
        Buttons::Star => 3u8,
        Buttons::Browse => 4u8,
        Buttons::Volume => 5u8,
        Buttons::Swing => 6u8,
        Buttons::Tempo => 7u8,
        Buttons::Plugin => 8u8,
        Buttons::Sampling => 9u8,
        Buttons::Pitch => 10u8,
        Buttons::Mod => 11u8,
        Buttons::Perform => 12u8,
        Buttons::Notes => 13u8,
        Buttons::Group => 14u8,
        Buttons::Auto => 15u8,
        Buttons::Lock => 16u8,
        Buttons::NoteRepeat => 17u8,
        Buttons::Shift => 18u8,
        Buttons::FixedVel => 19u8,
        Buttons::PadMode => 20u8,
        Buttons::Keyboard => 21u8,
        Buttons::Chords => 22u8,
        Buttons::Step => 23u8,
        Buttons::Scene => 24u8,
        Buttons::Pattern => 25u8,
        Buttons::Events => 26u8,
        Buttons::Variation => 27u8,
        Buttons::Duplicate => 28u8,
        Buttons::Select => 29u8,
        Buttons::Solo => 30u8,
        Buttons::Mute => 31u8,
        Buttons::Play => 32u8,
        Buttons::Stop => 33u8,
        Buttons::Rec => 34u8,
        Buttons::Restart => 35u8,
        Buttons::Erase => 36u8,
        Buttons::Tap => 37u8,
        Buttons::Follow => 38u8,
        Buttons::EncoderPress => 39u8,
        Buttons::EncoderTouch => 40u8,
    }
}

/// The button whose bit in a button report is `idx`; `None` for the bits that
/// carry no button.
pub open spec fn button_at(idx: int) -> Option<Buttons> {
    if idx == 0 {
        Some(Buttons::Left)
    } else if idx == 1 {
        Some(Buttons::Right)
    } else if idx == 2 {
        Some(Buttons::Maschine)
    } else if idx == 3 {
        Some(Buttons::Star)
    } else if idx == 4 {
        Some(Buttons::Browse)
    } else if idx == 5 {
        Some(Buttons::Volume)
    } else if idx == 6 {
        Some(Buttons::Swing)
    } else if idx == 7 {
        Some(Buttons::Tempo)
    } else if idx == 8 {
        Some(Buttons::Plugin)
    } else if idx == 9 {
        Some(Buttons::Sampling)
    } else if idx == 10 {
        Some(Buttons::Pitch)
    } else if idx == 11 {
        Some(Buttons::Mod)
    } else if idx == 12 {
        Some(Buttons::Perform)
    } else if idx == 13 {
        Some(Buttons::Notes)
    } else if idx == 14 {
        Some(Buttons::Group)
    } else if idx == 15 {
        Some(Buttons::Auto)
    } else if idx == 16 {
        Some(Buttons::Lock)
    } else if idx == 17 {
        Some(Buttons::NoteRepeat)
    } else if idx == 18 {
        Some(Buttons::Shift)
    } else if idx == 19 {
        Some(Buttons::FixedVel)
    } else if idx == 20 {
        Some(Buttons::PadMode)
    } else if idx == 21 {
        Some(Buttons::Keyboard)
    } else if idx == 22 {
        Some(Buttons::Chords)
    } else if idx == 23 {
        Some(Buttons::Step)
    } else if idx == 24 {
        Some(Buttons::Scene)
    } else if idx == 25 {
        Some(Buttons::Pattern)
    } else if idx == 26 {
        Some(Buttons::Events)
    } else if idx == 27 {
        Some(Buttons::Variation)
    } else if idx == 28 {
        Some(Buttons::Duplicate)
    } else if idx == 29 {
        Some(Buttons::Select)
    } else if idx == 30 {
        Some(Buttons::Solo)
    } else if idx == 31 {
        Some(Buttons::Mute)
    } else if idx == 32 {
        Some(Buttons::Play)
    } else if idx == 33 {
        Some(Buttons::Stop)
    } else if idx == 34 {
        Some(Buttons::Rec)
    } else if idx == 35 {
        Some(Buttons::Restart)
    } else if idx == 36 {
        Some(Buttons::Erase)
    } else if idx == 37 {
        Some(Buttons::Tap)
    } else if idx == 38 {
        Some(Buttons::Follow)
    } else if idx == 39 {
        Some(Buttons::EncoderPress)
    } else if idx == 40 {
        Some(Buttons::EncoderTouch)
    } else {
        None
    }
}

/// The lower-case name of a button, as configuration files write it.
pub open spec fn button_name(b: Buttons) -> Seq<char> {
    match b {
        Buttons::Left => "left"@,
        Buttons::Right => "right"@,
        Buttons::Maschine => "maschine"@,
        Buttons::Star => "star"@,
        Buttons::Browse => "browse"@,
        Buttons::Volume => "volume"@,
        Buttons::Swing => "swing"@,
        Buttons::Tempo => "tempo"@,
        Buttons::Plugin => "plugin"@,
        Buttons::Sampling => "sampling"@,
        Buttons::Pitch => "pitch"@,
        Buttons::Mod => "mod"@,
        Buttons::Perform => "perform"@,
        Buttons::Notes => "notes"@,
        Buttons::Group => "group"@,
        Buttons::Auto => "auto"@,
        Buttons::Lock => "lock"@,
        Buttons::NoteRepeat => "noterepeat"@,
        Buttons::Shift => "shift"@,
        Buttons::FixedVel => "fixedvel"@,
        Buttons::PadMode => "padmode"@,
        Buttons::Keyboard => "keyboard"@,
        Buttons::Chords => "chords"@,
        Buttons::Step => "step"@,
        Buttons::Scene => "scene"@,
        Buttons::Pattern => "pattern"@,
        Buttons::Events => "events"@,
        Buttons::Variation => "variation"@,
        Buttons::Duplicate => "duplicate"@,
        Buttons::Select => "select"@,
        Buttons::Solo => "solo"@,
        Buttons::Mute => "mute"@,
        Buttons::Play => "play"@,
        Buttons::Stop => "stop"@,
        Buttons::Rec => "rec"@,
        Buttons::Restart => "restart"@,
        Buttons::Erase => "erase"@,
        Buttons::Tap => "tap"@,
        Buttons::Follow => "follow"@,
        Buttons::EncoderPress => "encoderpress"@,
        Buttons::EncoderTouch => "encodertouch"@,
    }
}

impl Buttons {
    /// The bit of this button in a button report.
    pub fn index(&self) -> (i: u8)
        ensures
            i == button_index(*self),
            (i as usize) < NUM_BUTTONS,
    {
        match self {
            Buttons::Left => 0,
            Buttons::Right => 1,
            Buttons::Maschine => 2,
            Buttons::Star => 3,
            Buttons::Browse => 4,
            Buttons::Volume => 5,
            Buttons::Swing => 6,
            Buttons::Tempo => 7,
            Buttons::Plugin => 8,
            Buttons::Sampling => 9,
            Buttons::Pitch => 10,
            Buttons::Mod => 11,
            Buttons::Perform => 12,
            Buttons::Notes => 13,
            Buttons::Group => 14,
            Buttons::Auto => 15,
            Buttons::Lock => 16,
            Buttons::NoteRepeat => 17,
            Buttons::Shift => 18,
            Buttons::FixedVel => 19,
            Buttons::PadMode => 20,
            Buttons::Keyboard => 21,
            Buttons::Chords => 22,
            Buttons::Step => 23,
            Buttons::Scene => 24,
            Buttons::Pattern => 25,
            Buttons::Events => 26,
            Buttons::Variation => 27,
            Buttons::Duplicate => 28,
            Buttons::Select => 29,
            Buttons::Solo => 30,
            Buttons::Mute => 31,
            Buttons::Play => 32,
            Buttons::Stop => 33,
            Buttons::Rec => 34,
            Buttons::Restart => 35,
            Buttons::Erase => 36,
            Buttons::Tap => 37,
            Buttons::Follow => 38,
            Buttons::EncoderPress => 39,
            Buttons::EncoderTouch => 40,
        }
    }

    /// The button whose bit in a button report is `idx`, if any.
    pub fn from_index(idx: usize) -> (b: Option<Buttons>)
        ensures
            b == button_at(idx as int),
    {
        match idx {
            0 => Some(Buttons::Left),
            1 => Some(Buttons::Right),
            2 => Some(Buttons::Maschine),
            3 => Some(Buttons::Star),
            4 => Some(Buttons::Browse),
            5 => Some(Buttons::Volume),
            6 => Some(Buttons::Swing),
            7 => Some(Buttons::Tempo),
            8 => Some(Buttons::Plugin),
            9 => Some(Buttons::Sampling),
            10 => Some(Buttons::Pitch),
            11 => Some(Buttons::Mod),
            12 => Some(Buttons::Perform),
            13 => Some(Buttons::Notes),
            14 => Some(Buttons::Group),
            15 => Some(Buttons::Auto),
            16 => Some(Buttons::Lock),
            17 => Some(Buttons::NoteRepeat),
            18 => Some(Buttons::Shift),
            19 => Some(Buttons::FixedVel),
            20 => Some(Buttons::PadMode),
            21 => Some(Buttons::Keyboard),
            22 => Some(Buttons::Chords),
            23 => Some(Buttons::Step),
            24 => Some(Buttons::Scene),
            25 => Some(Buttons::Pattern),
            26 => Some(Buttons::Events),
            27 => Some(Buttons::Variation),
            28 => Some(Buttons::Duplicate),
            29 => Some(Buttons::Select),
            30 => Some(Buttons::Solo),
            31 => Some(Buttons::Mute),
            32 => Some(Buttons::Play),
            33 => Some(Buttons::Stop),
            34 => Some(Buttons::Rec),
            35 => Some(Buttons::Restart),
            36 => Some(Buttons::Erase),
            37 => Some(Buttons::Tap),
            38 => Some(Buttons::Follow),
            39 => Some(Buttons::EncoderPress),
            40 => Some(Buttons::EncoderTouch),
            _ => None,
        }
    }

    /// The lower-case name of this button.
    pub fn name(&self) -> (s: &'static str)
        ensures
            s@ == button_name(*self),
    {
        match self {
            Buttons::Left => "left",
            Buttons::Right => "right",
            Buttons::Maschine => "maschine",
            Buttons::Star => "star",
            Buttons::Browse => "browse",
            Buttons::Volume => "volume",
            Buttons::Swing => "swing",
            Buttons::Tempo => "tempo",
            Buttons::Plugin => "plugin",
            Buttons::Sampling => "sampling",
            Buttons::Pitch => "pitch",
            Buttons::Mod => "mod",
            Buttons::Perform => "perform",
            Buttons::Notes => "notes",
            Buttons::Group => "group",
            Buttons::Auto => "auto",
            Buttons::Lock => "lock",
            Buttons::NoteRepeat => "noterepeat",
            Buttons::Shift => "shift",
            Buttons::FixedVel => "fixedvel",
            Buttons::PadMode => "padmode",
            Buttons::Keyboard => "keyboard",
            Buttons::Chords => "chords",
            Buttons::Step => "step",
            Buttons::Scene => "scene",
            Buttons::Pattern => "pattern",
            Buttons::Events => "events",
            Buttons::Variation => "variation",
            Buttons::Duplicate => "duplicate",
            Buttons::Select => "select",
            Buttons::Solo => "solo",
            Buttons::Mute => "mute",
            Buttons::Play => "play",
            Buttons::Stop => "stop",
            Buttons::Rec => "rec",
            Buttons::Restart => "restart",
            Buttons::Erase => "erase",
            Buttons::Tap => "tap",
            Buttons::Follow => "follow",
            Buttons::EncoderPress => "encoderpress",
            Buttons::EncoderTouch => "encodertouch",
        }
    }
}

/// A button report carries each button at its own bit, and every bit that
/// decodes to a button decodes back to that button's index: indexing and
/// decoding are inverse to each other.
pub proof fn lemma_button_index_roundtrip(b: Buttons, idx: int)
    ensures
        button_at(button_index(b) as int) == Some(b),
        (button_index(b) as int) < NUM_BUTTONS,
        button_at(idx) matches Some(c) ==> button_index(c) == idx,
        button_at(idx) is Some <==> 0 <= idx < NUM_BUTTONS,
{
}

/// Whether a button belongs to the transport section (Play, Stop, Rec,
/// Restart, Erase, Tap, Follow).
pub open spec fn is_transport(b: Buttons) -> bool {
    ||| b == Buttons::Play
    ||| b == Buttons::Stop
    ||| b == Buttons::Rec
    ||| b == Buttons::Restart
    ||| b == Buttons::Erase
    ||| b == Buttons::Tap
    ||| b == Buttons::Follow
}

/// Whether a button is one of the encoder's sensors (press and touch).
pub open spec fn is_encoder(b: Buttons) -> bool {
    b == Buttons::EncoderPress || b == Buttons::EncoderTouch
}

/// The kind of a pad event in a pad report, coded in the high nibble of the
/// event's second byte.
#[derive(Clone, Copy, Debug, PartialEq, Eq, Structural, Hash)]
pub enum PadEventType {
    PressOn,
    NoteOn,
    PressOff,
    NoteOff,
    Aftertouch,
}

/// The pad event type of a code (the event byte with its low nibble
/// cleared); `None` for a code that names no event.
pub open spec fn pad_event_of(code: u8) -> Option<PadEventType> {
    if code == 0x00 {
        Some(PadEventType::PressOn)
    } else if code == 0x10 {
        Some(PadEventType::NoteOn)
    } else if code == 0x20 {
        Some(PadEventType::PressOff)
    } else if code == 0x30 {
        Some(PadEventType::NoteOff)
    } else if code == 0x40 {
        Some(PadEventType::Aftertouch)
    } else {
        None
    }
}

impl PadEventType {
    /// Decodes a pad event code.
    pub fn from_code(code: u8) -> (e: Option<PadEventType>)
        ensures
            e == pad_event_of(code),
    {
        match code {
            0x00 => Some(PadEventType::PressOn),
            0x10 => Some(PadEventType::NoteOn),
            0x20 => Some(PadEventType::PressOff),
            0x30 => Some(PadEventType::NoteOff),
            0x40 => Some(PadEventType::Aftertouch),
            _ => None,
        }
    }
}

/// The brightness levels of the controller's LEDs.
#[derive(Clone, Copy, Debug, PartialEq, Eq, Structural, Hash)]
pub enum Brightness {
    Off,
    Dim,
    Normal,
    Bright,
}

} // verus!

use vstd::prelude::*;

use crate::text::{decimal, decimal_string};

verus! {

/// CC numbers of the transport buttons.
#[derive(Clone, Copy, Debug, PartialEq, Eq, Structural)]
pub struct TransportCCMap {
    pub play: u8,
    pub stop: u8,
    pub rec: u8,
    pub restart: u8,
    pub erase: u8,
    pub tap: u8,
    pub follow: u8,
}

/// The default transport CC numbers: Restart 116, Stop 117, Play 118, Rec 119,
/// Erase 120, Tap 121, Follow 122.
pub open spec fn default_transport_cc_map() -> TransportCCMap {
    TransportCCMap { play: 118, stop: 117, rec: 119, restart: 116, erase: 120, tap: 121, follow: 122 }
}

impl Default for TransportCCMap {
    fn default() -> (m: Self)
        ensures
            m == default_transport_cc_map(),
    {
        TransportCCMap { play: 118, stop: 117, rec: 119, restart: 116, erase: 120, tap: 121, follow: 122 }
    }
}

/// CC numbers that the buttons send when pressed alone. The transport buttons and the encoder's sensors take theirs from `TransportCCMap` and `EncoderCCMap`.
#[derive(Clone, Copy, Debug, PartialEq, Eq, Structural)]
pub struct ButtonCCMap {
    pub left: u8,
    pub right: u8,
    pub maschine: u8,
    pub star: u8,
    pub browse: u8,
    pub volume: u8,
    pub swing: u8,
    pub tempo: u8,
    pub plugin: u8,
    pub sampling: u8,
    pub pitch: u8,
    pub mod_button: u8,
    pub perform: u8,
    pub notes: u8,
    pub group: u8,
    pub auto: u8,
    pub lock: u8,
    pub note_repeat: u8,
    pub shift: u8,
    pub fixed_vol: u8,
    pub pad_mode: u8,
    pub keyboard: u8,
    pub chords: u8,
    pub step: u8,
    pub scene: u8,
    pub pattern: u8,
    pub events: u8,
    pub variation: u8,
    pub duplicate: u8,
    pub select: u8,
    pub solo: u8,
    pub mute: u8,
}

/// The default CC numbers of `ButtonCCMap`.
pub open spec fn default_button_cc_map() -> ButtonCCMap {
    ButtonCCMap {
        left: 20,
        right: 21,
        maschine: 22,
        star: 23,
        browse: 24,
        volume: 25,
        swing: 26,
        tempo: 27,
        plugin: 28,
        sampling: 29,
        pitch: 30,
        mod_button: 31,
        perform: 32,
        notes: 33,
        group: 34,
        auto: 35,
        lock: 36,
        note_repeat: 37,
        shift: 38,
        fixed_vol: 39,
        pad_mode: 40,
        keyboard: 41,
        chords: 42,
        step: 43,
        scene: 44,
        pattern: 45,
        events: 46,
        variation: 47,
        duplicate: 48,
        select: 49,
        solo: 50,
        mute: 51,
    }
}

impl Default for ButtonCCMap {
    fn default() -> (m: Self)
        ensures
            m == default_button_cc_map(),
    {
        ButtonCCMap {
            left: 20,
            right: 21,
            maschine: 22,
            star: 23,
            browse: 24,
            volume: 25,
            swing: 26,
            tempo: 27,
            plugin: 28,
            sampling: 29,
            pitch: 30,
            mod_button: 31,
            perform: 32,
            notes: 33,
            group: 34,
            auto: 35,
            lock: 36,
            note_repeat: 37,
            shift: 38,
            fixed_vol: 39,
            pad_mode: 40,
            keyboard: 41,
            chords: 42,
            step: 43,
            scene: 44,
            pattern: 45,
            events: 46,
            variation: 47,
            duplicate: 48,
            select: 49,
            solo: 50,
            mute: 51,
        }
    }
}

/// CC numbers that the buttons send while Shift is held.
#[derive(Clone, Copy, Debug, PartialEq, Eq, Structural)]
pub struct ShiftCombinationMap {
    pub left: u8,
    pub right: u8,
    pub maschine: u8,
    pub star: u8,
    pub browse: u8,
    pub volume: u8,
    pub swing: u8,
    pub tempo: u8,
    pub plugin: u8,
    pub sampling: u8,
    pub pitch: u8,
    pub mod_button: u8,
    pub perform: u8,
    pub notes: u8,
    pub group: u8,
    pub auto: u8,
    pub lock: u8,
    pub note_repeat: u8,
    pub fixed_vel: u8,
    pub pad_mode: u8,
    pub keyboard: u8,
    pub chords: u8,
    pub step: u8,
    pub scene: u8,
    pub pattern: u8,
    pub events: u8,
    pub variation: u8,
    pub duplicate: u8,
    pub select: u8,
    pub solo: u8,
    pub mute: u8,
    pub play: u8,
    pub stop: u8,
    pub rec: u8,
    pub restart: u8,
    pub erase: u8,
    pub tap: u8,
    pub follow: u8,
    pub encoder_press: u8,
    pub encoder_touch: u8,
}

/// The default CC numbers of `ShiftCombinationMap`.
pub open spec fn default_shift_combinations() -> ShiftCombinationMap {
    ShiftCombinationMap {
        left: 60,
        right: 61,
        maschine: 62,
        star: 63,
        browse: 64,
        volume: 65,
        swing: 66,
        tempo: 67,
        plugin: 68,
        sampling: 69,
        pitch: 70,
        mod_button: 71,
        perform: 72,
        notes: 73,
        group: 74,
        auto: 75,
        lock: 76,
        note_repeat: 77,
        fixed_vel: 78,
        pad_mode: 79,
        keyboard: 80,
        chords: 81,
        step: 82,
        scene: 83,
        pattern: 84,
        events: 85,
        variation: 86,
        duplicate: 87,
        select: 88,
        solo: 89,
        mute: 90,
        play: 91,
        stop: 92,
        rec: 93,
        restart: 94,
        erase: 95,
        tap: 96,
        follow: 97,
        encoder_press: 98,
        encoder_touch: 99,
    }
}

impl Default for ShiftCombinationMap {
    fn default() -> (m: Self)
        ensures
            m == default_shift_combinations(),
    {
        ShiftCombinationMap {
            left: 60,
            right: 61,
            maschine: 62,
            star: 63,
            browse: 64,
            volume: 65,
            swing: 66,
            tempo: 67,
            plugin: 68,
            sampling: 69,
            pitch: 70,
            mod_button: 71,
            perform: 72,
            notes: 73,
            group: 74,
            auto: 75,
            lock: 76,
            note_repeat: 77,
            fixed_vel: 78,
            pad_mode: 79,
            keyboard: 80,
            chords: 81,
            step: 82,
            scene: 83,
            pattern: 84,
            events: 85,
            variation: 86,
            duplicate: 87,
            select: 88,
            solo: 89,
            mute: 90,
            play: 91,
            stop: 92,
            rec: 93,
            restart: 94,
            erase: 95,
            tap: 96,
            follow: 97,
            encoder_press: 98,
            encoder_touch: 99,
        }
    }
}

/// CC numbers of the encoder: its press and touch sensors, and its rotation.
#[derive(Clone, Copy, Debug, PartialEq, Eq, Structural)]
pub struct EncoderCCMap {
    pub press: u8,
    pub touch: u8,
    pub rotation: u8,
}

/// The default encoder CC numbers: press 52, touch 53, rotation 54.
pub open spec fn default_encoder_cc_map() -> EncoderCCMap {
    EncoderCCMap { press: 52, touch: 53, rotation: 54 }
}

impl Default for EncoderCCMap {
    fn default() -> (m: Self)
        ensures
            m == default_encoder_cc_map(),
    {
        EncoderCCMap { press: 52, touch: 53, rotation: 54 }
    }
}

/// Which buttons latch: a button named here (by its lower-case name, such as
/// `"play"` or `"noterepeat"`) works as a toggle, every other one as a
/// momentary switch.
#[derive(Debug)]
pub struct ButtonModes {
    pub toggle: Vec<String>,
}

impl ButtonModes {
    /// The names of the toggle buttons.
    pub open spec fn toggle_names(&self) -> Seq<Seq<char>> {
        self.toggle@.map_values(|s: String| s@)
    }

    /// Whether the button of that name is configured as a toggle.
    pub open spec fn spec_is_toggle(&self, name: Seq<char>) -> bool {
        self.toggle_names().contains(name)
    }

    /// Whether the button of that name is configured as a toggle.
    pub fn is_toggle(&self, name: &str) -> (r: bool)
        ensures
            r == self.spec_is_toggle(name@),
    {
        let wanted = String::from_str(name);
        let mut i: usize = 0;
        while i < self.toggle.len()
            invariant
                i <= self.toggle@.len(),
                wanted@ == name@,
                forall|j: int| 0 <= j < i ==> self.toggle@[j]@ != name@,
            decreases self.toggle@.len() - i,
        {
            if self.toggle[i] == wanted {
                assert(self.toggle_names()[i as int] == name@);
                return true;
            }
            i = i + 1;
        }
        assert(!self.toggle_names().contains(name@)) by {
            if self.toggle_names().contains(name@) {
                let k = choose|k: int| 0 <= k < self.toggle_names().len() && self.toggle_names()[k] == name@;
                assert(self.toggle@[k]@ == name@);
            }
        }
        false
    }
}

impl Default for ButtonModes {
    fn default() -> (m: Self)
        ensures
            m.toggle@.len() == 0,
    {
        ButtonModes { toggle: Vec::new() }
    }
}

/// The driver's configuration.
#[derive(Debug)]
pub struct Settings {
    /// The MIDI note of each of the 16 pads.
    pub notemaps: Vec<u8>,
    /// The name of the MIDI client.
    pub client_name: String,
    /// The name of the virtual MIDI port.
    pub port_name: String,
    /// MIDI channel of the transport buttons.
    pub transport_channel: u8,
    /// CC numbers of the transport buttons.
    pub transport_cc_map: TransportCCMap,
    /// MIDI channel of the buttons outside the transport section and the encoder.
    pub button_channel: u8,
    /// MIDI channel of the encoder.
    pub encoder_channel: u8,
    /// MIDI channel of the touch strip.
    pub touch_strip_channel: u8,
    /// CC number of the touch strip.
    pub touch_strip_cc: u8,
    /// CC numbers of the buttons pressed alone.
    pub button_cc_map: ButtonCCMap,
    /// CC numbers of the buttons pressed while Shift is held.
    pub shift_combinations: ShiftCombinationMap,
    /// CC numbers of the encoder.
    pub encoder_cc_map: EncoderCCMap,
    /// Which buttons latch.
    pub button_modes: ButtonModes,
}

/// The default pad notes, pad 0 first.
pub open spec fn default_notemaps() -> Seq<u8> {
    seq![49, 27, 31, 57, 48, 47, 43, 59, 36, 38, 46, 51, 36, 38, 42, 44]
}

/// The default configuration: the default pad notes, client
/// "Maschine Mikro MK3" with port "Maschine Mikro MK3 MIDI Out", every
/// channel 0, the touch strip on CC 1, the default CC maps and no toggle
/// button.
pub open spec fn is_default_settings(s: Settings) -> bool {
    &&& s.notemaps@ == default_notemaps()
    &&& s.client_name@ == "Maschine Mikro MK3"@
    &&& s.port_name@ == "Maschine Mikro MK3 MIDI Out"@
    &&& s.transport_channel == 0
    &&& s.transport_cc_map == default_transport_cc_map()
    &&& s.button_channel == 0
    &&& s.encoder_channel == 0
    &&& s.touch_strip_channel == 0
    &&& s.touch_strip_cc == 1
    &&& s.button_cc_map == default_button_cc_map()
    &&& s.shift_combinations == default_shift_combinations()
    &&& s.encoder_cc_map == default_encoder_cc_map()
    &&& s.button_modes.toggle@.len() == 0
}

impl Default for Settings {
    fn default() -> (s: Self)
        ensures
            is_default_settings(s),
    {
        let notemaps: Vec<u8> = vec![49, 27, 31, 57, 48, 47, 43, 59, 36, 38, 46, 51, 36, 38, 42, 44];
        assert(notemaps@ =~= default_notemaps());
        Settings {
            notemaps,
            client_name: String::from_str("Maschine Mikro MK3"),
            port_name: String::from_str("Maschine Mikro MK3 MIDI Out"),
            transport_channel: 0,
            transport_cc_map: TransportCCMap::default(),
            button_channel: 0,
            encoder_channel: 0,
            touch_strip_channel: 0,
            touch_strip_cc: 1,
            button_cc_map: ButtonCCMap::default(),
            shift_combinations: ShiftCombinationMap::default(),
            encoder_cc_map: EncoderCCMap::default(),
            button_modes: ButtonModes::default(),
        }
    }
}

/// The message that rejects a transport CC number.
pub open spec fn transport_cc_message(name: Seq<char>, cc: u8) -> Seq<char> {
    "Transport CC for "@ + name + " must be 0-127 (found "@ + decimal(cc as nat) + ")"@
}

/// What `validate` rejects a configuration for, checked in this order: the
/// number of pads, the range of the pad notes, the client name, the port
/// name, the transport channel, then the transport CC numbers from Play to
/// Follow. `None` when the configuration is valid.
pub open spec fn validation_error(s: Settings) -> Option<Seq<char>> {
    let m = s.transport_cc_map;
    if s.notemaps@.len() != 16 {
        Some("The should be 16 pads exactly (found "@ + decimal(s.notemaps@.len()) + ")"@)
    } else if exists|i: int| 0 <= i < s.notemaps@.len() && s.notemaps@[i] >= 128 {
        Some("MIDI notes should be 0 to 127"@)
    } else if s.client_name@.len() == 0 {
        Some("Client name must not be empty"@)
    } else if s.port_name@.len() == 0 {
        Some("Port name must not be empty"@)
    } else if s.transport_channel > 15 {
        Some("Transport MIDI channel must be 0-15 (found "@ + decimal(s.transport_channel as nat) + ")"@)
    } else if m.play >= 128 {
        Some(transport_cc_message("play"@, m.play))
    } else if m.stop >= 128 {
        Some(transport_cc_message("stop"@, m.stop))
    } else if m.rec >= 128 {
        Some(transport_cc_message("rec"@, m.rec))
    } else if m.restart >= 128 {
        Some(transport_cc_message("restart"@, m.restart))
    } else if m.erase >= 128 {
        Some(transport_cc_message("erase"@, m.erase))
    } else if m.tap >= 128 {
        Some(transport_cc_message("tap"@, m.tap))
    } else if m.follow >= 128 {
        Some(transport_cc_message("follow"@, m.follow))
    } else {
        None
    }
}

/// A configuration is valid when `validate` accepts it.
pub open spec fn settings_valid(s: Settings) -> bool {
    validation_error(s) is None
}

/// Rejects a transport CC number above 127.
fn check_transport_cc(name: &str, cc: u8) -> (r: Result<(), String>)
    ensures
        cc < 128 ==> r is Ok,
        cc >= 128 ==> (r matches Err(m) && m@ == transport_cc_message(name@, cc)),
{
    if cc >= 128 {
        let mut msg = String::from_str("Transport CC for ");
        msg.append(name);
        msg.append(" must be 0-127 (found ");
        let num = decimal_string(cc as u64);
        msg.append(num.as_str());
        msg.append(")");
        Err(msg)
    } else {
        Ok(())
    }
}

/// A configuration passes validation exactly when it has 16 pads, every pad
/// note is below 128, the client and port names are not empty, the
/// transport channel is at most 15 and every transport CC number (Play,
/// Stop, Rec, Restart, Erase, Tap, Follow) is below 128. When only a
/// transport CC number is out of range, the message names the first such
/// button, in the order Play, Stop, Rec, Restart, Erase, Tap, Follow, and its
/// value.
pub proof fn lemma_validation_accepts_exactly_in_range_settings(s: Settings)
    ensures
        settings_valid(s) <==> {
            &&& s.notemaps@.len() == 16
            &&& forall|i: int| 0 <= i < s.notemaps@.len() ==> s.notemaps@[i] < 128
            &&& s.client_name@.len() > 0
            &&& s.port_name@.len() > 0
            &&& s.transport_channel <= 15
            &&& s.transport_cc_map.play < 128
            &&& s.transport_cc_map.stop < 128
            &&& s.transport_cc_map.rec < 128
            &&& s.transport_cc_map.restart < 128
            &&& s.transport_cc_map.erase < 128
            &&& s.transport_cc_map.tap < 128
            &&& s.transport_cc_map.follow < 128
        },
        ({
            let m = s.transport_cc_map;
            let rest_ok = s.notemaps@.len() == 16
                && (forall|i: int| 0 <= i < s.notemaps@.len() ==> s.notemaps@[i] < 128)
                && s.client_name@.len() > 0 && s.port_name@.len() > 0 && s.transport_channel <= 15;
            &&& rest_ok && m.play >= 128 ==> validation_error(s) == Some(
                "Transport CC for "@ + "play"@ + " must be 0-127 (found "@ + decimal(m.play as nat) + ")"@)
            &&& rest_ok && m.play < 128 && m.stop >= 128 ==> validation_error(s) == Some(
                "Transport CC for "@ + "stop"@ + " must be 0-127 (found "@ + decimal(m.stop as nat) + ")"@)
            &&& rest_ok && m.play < 128 && m.stop < 128 && m.rec >= 128 ==> validation_error(s) == Some(
                "Transport CC for "@ + "rec"@ + " must be 0-127 (found "@ + decimal(m.rec as nat) + ")"@)
            &&& rest_ok && m.play < 128 && m.stop < 128 && m.rec < 128 && m.restart >= 128 ==> validation_error(s)
                == Some("Transport CC for "@ + "restart"@ + " must be 0-127 (found "@ + decimal(m.restart as nat) + ")"@)
            &&& rest_ok && m.play < 128 && m.stop < 128 && m.rec < 128 && m.restart < 128 && m.erase >= 128
                ==> validation_error(s) == Some(
                "Transport CC for "@ + "erase"@ + " must be 0-127 (found "@ + decimal(m.erase as nat) + ")"@)
            &&& rest_ok && m.play < 128 && m.stop < 128 && m.rec < 128 && m.restart < 128 && m.erase < 128
                && m.tap >= 128 ==> validation_error(s) == Some(
                "Transport CC for "@ + "tap"@ + " must be 0-127 (found "@ + decimal(m.tap as nat) + ")"@)
            &&& rest_ok && m.play < 128 && m.stop < 128 && m.rec < 128 && m.restart < 128 && m.erase < 128
                && m.tap < 128 && m.follow >= 128 ==> validation_error(s) == Some(
                "Transport CC for "@ + "follow"@ + " must be 0-127 (found "@ + decimal(m.follow as nat) + ")"@)
        }),
{
}

/// The default configuration passes validation.
pub proof fn lemma_default_settings_are_valid(s: Settings)
    requires
        is_default_settings(s),
    ensures
        settings_valid(s),
{
    reveal_strlit("Maschine Mikro MK3");
    reveal_strlit("Maschine Mikro MK3 MIDI Out");
    assert(forall|i: int| 0 <= i < s.notemaps@.len() ==> s.notemaps@[i] < 128);
}

impl Settings {
    /// Checks the configuration: 16 pads, pad notes from 0 to 127, non-empty
    /// client and port names, a transport channel from 0 to 15 and transport
    /// CC numbers from 0 to 127. The error describes the first check that
    /// fails.
    pub fn validate(&self) -> (r: Result<(), String>)
        ensures
            r is Ok <==> validation_error(*self) is None,
            r matches Err(m) ==> validation_error(*self) == Some(m@),
    {
        let padcnt = self.notemaps.len();
        if padcnt != 16 {
            let mut msg = String::from_str("The should be 16 pads exactly (found ");
            let num = decimal_string(padcnt as u64);
            msg.append(num.as_str());
            msg.append(")");
            return Err(msg);
        }
        let mut i: usize = 0;
        while i < padcnt
            invariant
                padcnt == self.notemaps@.len(),
                padcnt == 16,
                i <= padcnt,
                forall|j: int| 0 <= j < i ==> self.notemaps@[j] < 128,
            decreases padcnt - i,
        {
            if self.notemaps[i] >= 128 {
                assert(self.notemaps@[i as int] >= 128);
                return Err(String::from_str("MIDI notes should be 0 to 127"));
            }
            i = i + 1;
        }
        if self.client_name.as_str().is_empty() {
            return Err(String::from_str("Client name must not be empty"));
        }
        if self.port_name.as_str().is_empty() {
            return Err(String::from_str("Port name must not be empty"));
        }
        if self.transport_channel > 15 {
            let mut msg = String::from_str("Transport MIDI channel must be 0-15 (found ");
            let num = decimal_string(self.transport_channel as u64);
            msg.append(num.as_str());
            msg.append(")");
            return Err(msg);
        }
        let m = self.transport_cc_map;
        check_transport_cc("play", m.play)?;
        check_transport_cc("stop", m.stop)?;
        check_transport_cc("rec", m.rec)?;
        check_transport_cc("restart", m.restart)?;
        check_transport_cc("erase", m.erase)?;
        check_transport_cc("tap", m.tap)?;
        check_transport_cc("follow", m.follow)?;
        Ok(())
    }
}

} // verus!

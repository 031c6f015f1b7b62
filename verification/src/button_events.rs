use vstd::prelude::*;

use std::collections::HashMap;

use crate::controls::{button_index, button_name, is_encoder, is_transport, Buttons};
use crate::midi::{ChannelMessage, MidiMessage};
use crate::settings::Settings;

verus! {

broadcast use vstd::std_specs::hash::group_hash_axioms;

/// What the driver remembers of one button.
#[derive(Clone, Copy, Debug, PartialEq, Eq, Structural)]
pub struct ButtonState {
    /// Whether the button was down in the last report.
    pub physical_pressed: bool,
    /// The latched state of a toggle button.
    pub toggle_state: bool,
    /// The last CC value sent for the button.
    pub last_sent_value: u8,
}

/// The state of a button that has not been seen yet: up, unlatched, last
/// value 0.
pub open spec fn initial_button_state() -> ButtonState {
    ButtonState { physical_pressed: false, toggle_state: false, last_sent_value: 0 }
}

impl Default for ButtonState {
    fn default() -> (s: Self)
        ensures
            s == initial_button_state(),
    {
        ButtonState { physical_pressed: false, toggle_state: false, last_sent_value: 0 }
    }
}

/// What the driver remembers of the Shift button as a modifier.
#[derive(Clone, Copy, Debug, PartialEq, Eq, Structural)]
pub struct ShiftState {
    /// Whether Shift is held.
    pub pressed: bool,
    /// Whether another button was pressed while Shift was held.
    pub used_as_modifier: bool,
}

/// Shift up and unused.
pub open spec fn initial_shift_state() -> ShiftState {
    ShiftState { pressed: false, used_as_modifier: false }
}

impl Default for ShiftState {
    fn default() -> (s: Self)
        ensures
            s == initial_shift_state(),
    {
        ShiftState { pressed: false, used_as_modifier: false }
    }
}

/// The CC number a button sends when pressed alone.
pub open spec fn single_button_cc(b: Buttons, s: Settings) -> u8 {
    match b {
        Buttons::Left => s.button_cc_map.left,
        Buttons::Right => s.button_cc_map.right,
        Buttons::Maschine => s.button_cc_map.maschine,
        Buttons::Star => s.button_cc_map.star,
        Buttons::Browse => s.button_cc_map.browse,
        Buttons::Volume => s.button_cc_map.volume,
        Buttons::Swing => s.button_cc_map.swing,
        Buttons::Tempo => s.button_cc_map.tempo,
        Buttons::Plugin => s.button_cc_map.plugin,
        Buttons::Sampling => s.button_cc_map.sampling,
        Buttons::Pitch => s.button_cc_map.pitch,
        Buttons::Mod => s.button_cc_map.mod_button,
        Buttons::Perform => s.button_cc_map.perform,
        Buttons::Notes => s.button_cc_map.notes,
        Buttons::Group => s.button_cc_map.group,
        Buttons::Auto => s.button_cc_map.auto,
        Buttons::Lock => s.button_cc_map.lock,
        Buttons::NoteRepeat => s.button_cc_map.note_repeat,
        Buttons::Shift => s.button_cc_map.shift,
        Buttons::FixedVel => s.button_cc_map.fixed_vol,
        Buttons::PadMode => s.button_cc_map.pad_mode,
        Buttons::Keyboard => s.button_cc_map.keyboard,
        Buttons::Chords => s.button_cc_map.chords,
        Buttons::Step => s.button_cc_map.step,
        Buttons::Scene => s.button_cc_map.scene,
        Buttons::Pattern => s.button_cc_map.pattern,
        Buttons::Events => s.button_cc_map.events,
        Buttons::Variation => s.button_cc_map.variation,
        Buttons::Duplicate => s.button_cc_map.duplicate,
        Buttons::Select => s.button_cc_map.select,
        Buttons::Solo => s.button_cc_map.solo,
        Buttons::Mute => s.button_cc_map.mute,
        Buttons::Play => s.transport_cc_map.play,
        Buttons::Stop => s.transport_cc_map.stop,
        Buttons::Rec => s.transport_cc_map.rec,
        Buttons::Restart => s.transport_cc_map.restart,
        Buttons::Erase => s.transport_cc_map.erase,
        Buttons::Tap => s.transport_cc_map.tap,
        Buttons::Follow => s.transport_cc_map.follow,
        Buttons::EncoderPress => s.encoder_cc_map.press,
        Buttons::EncoderTouch => s.encoder_cc_map.touch,
    }
}

/// The CC number a button sends while Shift is held; Shift itself keeps its
/// own CC number.
pub open spec fn shift_combination_cc(b: Buttons, s: Settings) -> u8 {
    match b {
        Buttons::Left => s.shift_combinations.left,
        Buttons::Right => s.shift_combinations.right,
        Buttons::Maschine => s.shift_combinations.maschine,
        Buttons::Star => s.shift_combinations.star,
        Buttons::Browse => s.shift_combinations.browse,
        Buttons::Volume => s.shift_combinations.volume,
        Buttons::Swing => s.shift_combinations.swing,
        Buttons::Tempo => s.shift_combinations.tempo,
        Buttons::Plugin => s.shift_combinations.plugin,
        Buttons::Sampling => s.shift_combinations.sampling,
        Buttons::Pitch => s.shift_combinations.pitch,
        Buttons::Mod => s.shift_combinations.mod_button,
        Buttons::Perform => s.shift_combinations.perform,
        Buttons::Notes => s.shift_combinations.notes,
        Buttons::Group => s.shift_combinations.group,
        Buttons::Auto => s.shift_combinations.auto,
        Buttons::Lock => s.shift_combinations.lock,
        Buttons::NoteRepeat => s.shift_combinations.note_repeat,
        Buttons::Shift => single_button_cc(b, s),
        Buttons::FixedVel => s.shift_combinations.fixed_vel,
        Buttons::PadMode => s.shift_combinations.pad_mode,
        Buttons::Keyboard => s.shift_combinations.keyboard,
        Buttons::Chords => s.shift_combinations.chords,
        Buttons::Step => s.shift_combinations.step,
        Buttons::Scene => s.shift_combinations.scene,
        Buttons::Pattern => s.shift_combinations.pattern,
        Buttons::Events => s.shift_combinations.events,
        Buttons::Variation => s.shift_combinations.variation,
        Buttons::Duplicate => s.shift_combinations.duplicate,
        Buttons::Select => s.shift_combinations.select,
        Buttons::Solo => s.shift_combinations.solo,
        Buttons::Mute => s.shift_combinations.mute,
        Buttons::Play => s.shift_combinations.play,
        Buttons::Stop => s.shift_combinations.stop,
        Buttons::Rec => s.shift_combinations.rec,
        Buttons::Restart => s.shift_combinations.restart,
        Buttons::Erase => s.shift_combinations.erase,
        Buttons::Tap => s.shift_combinations.tap,
        Buttons::Follow => s.shift_combinations.follow,
        Buttons::EncoderPress => s.shift_combinations.encoder_press,
        Buttons::EncoderTouch => s.shift_combinations.encoder_touch,
    }
}

/// The MIDI channel of a button: the transport channel for the transport
/// buttons, the encoder channel for the encoder's sensors, the button
/// channel for every other button.
pub open spec fn button_channel_of(b: Buttons, s: Settings) -> u8 {
    if is_transport(b) {
        s.transport_channel
    } else if is_encoder(b) {
        s.encoder_channel
    } else {
        s.button_channel
    }
}

/// A control change message.
pub open spec fn cc_message(channel: u8, controller: u8, value: u8) -> ChannelMessage {
    ChannelMessage { channel, message: MidiMessage::Controller { controller, value } }
}

/// Whether a button is configured as a toggle.
pub open spec fn button_is_toggle(b: Buttons, s: Settings) -> bool {
    s.button_modes.spec_is_toggle(button_name(b))
}

/// One button event (the button `b` seen down or up in a report), given the
/// button's state and the Shift state before it: the button's state and the
/// Shift state after it, and the control changes it sends, in order.
///
/// - A button whose physical state did not change does nothing.
/// - Shift sends nothing when pressed; when released it sends its CC with
///   127 then 0, on the button channel, unless another button was pressed
///   meanwhile.
/// - Another button marks a held Shift as used when pressed, and takes its CC
///   number from the Shift combinations while Shift is held.
/// - A toggle button flips its latch on press and sends 127 when latched, 0
///   when not; its release sends nothing. A momentary button sends 127 on
///   press and 0 on release.
/// - A value equal to the last one sent for the button is not sent again.
pub open spec fn button_transition(
    st: ButtonState,
    shift: ShiftState,
    b: Buttons,
    pressed: bool,
    s: Settings,
) -> (ButtonState, ShiftState, Seq<ChannelMessage>) {
    if st.physical_pressed == pressed {
        (st, shift, seq![])
    } else {
        let st1 = ButtonState { physical_pressed: pressed, ..st };
        if b == Buttons::Shift {
            if pressed {
                (st1, ShiftState { pressed: true, used_as_modifier: false }, seq![])
            } else {
                let cc = single_button_cc(b, s);
                let sent = if !shift.used_as_modifier {
                    seq![cc_message(s.button_channel, cc, 127), cc_message(s.button_channel, cc, 0)]
                } else {
                    seq![]
                };
                (st1, ShiftState { pressed: false, used_as_modifier: false }, sent)
            }
        } else {
            let shift1 = if shift.pressed && pressed {
                ShiftState { used_as_modifier: true, ..shift }
            } else {
                shift
            };
            let cc = if shift.pressed {
                shift_combination_cc(b, s)
            } else {
                single_button_cc(b, s)
            };
            if button_is_toggle(b, s) && !pressed {
                (st1, shift1, seq![])
            } else {
                let st2 = if button_is_toggle(b, s) {
                    ButtonState { toggle_state: !st1.toggle_state, ..st1 }
                } else {
                    st1
                };
                let value: u8 = if button_is_toggle(b, s) {
                    if st2.toggle_state { 127 } else { 0 }
                } else {
                    if pressed { 127 } else { 0 }
                };
                if st2.last_sent_value == value {
                    (st2, shift1, seq![])
                } else {
                    (
                        ButtonState { last_sent_value: value, ..st2 },
                        shift1,
                        seq![cc_message(button_channel_of(b, s), cc, value)],
                    )
                }
            }
        }
    }
}

/// The state of a button in the table of button states: the stored one, or
/// the initial state for a button not seen yet.
pub open spec fn state_in(states: Map<u8, ButtonState>, b: Buttons) -> ButtonState {
    if states.contains_key(button_index(b)) {
        states[button_index(b)]
    } else {
        initial_button_state()
    }
}

/// An event that repeats a button's physical state (down while already down,
/// up while already up) changes nothing and sends nothing.
pub proof fn lemma_repeated_state_is_ignored(
    st: ButtonState,
    shift: ShiftState,
    b: Buttons,
    pressed: bool,
    s: Settings,
)
    requires
        st.physical_pressed == pressed,
    ensures
        button_transition(st, shift, b, pressed, s) == (st, shift, Seq::<ChannelMessage>::empty()),
{
    assert(button_transition(st, shift, b, pressed, s).2 =~= Seq::<ChannelMessage>::empty());
}

/// Every event leaves the button's recorded physical state equal to the
/// event's.
pub proof fn lemma_physical_state_follows_event(
    st: ButtonState,
    shift: ShiftState,
    b: Buttons,
    pressed: bool,
    s: Settings,
)
    ensures
        button_transition(st, shift, b, pressed, s).0.physical_pressed == pressed,
{
}

/// Shift pressed and released with no other button in between sends its own
/// CC, 127 then 0, on the button channel, and only on release; Shift ends up
/// released and unused.
pub proof fn lemma_shift_alone_sends_press_and_release(st: ButtonState, shift: ShiftState, s: Settings)
    requires
        !st.physical_pressed,
    ensures
        ({
            let t1 = button_transition(st, shift, Buttons::Shift, true, s);
            let t2 = button_transition(t1.0, t1.1, Buttons::Shift, false, s);
            let cc = single_button_cc(Buttons::Shift, s);
            &&& t1.2 == Seq::<ChannelMessage>::empty()
            &&& t2.2 == seq![cc_message(s.button_channel, cc, 127), cc_message(s.button_channel, cc, 0)]
            &&& t2.1 == initial_shift_state()
        }),
{
    let t1 = button_transition(st, shift, Buttons::Shift, true, s);
    assert(t1.2 =~= Seq::<ChannelMessage>::empty());
}

/// When another button is pressed while Shift is held, that button sends on
/// its Shift combination CC, and the release of Shift sends nothing: Shift
/// used as a modifier never sends its own CC.
pub proof fn lemma_shift_as_modifier_is_silent(
    st_shift: ShiftState,
    shift_button: ButtonState,
    other: ButtonState,
    b: Buttons,
    s: Settings,
)
    requires
        b != Buttons::Shift,
        !shift_button.physical_pressed,
        !other.physical_pressed,
    ensures
        ({
            let t1 = button_transition(shift_button, st_shift, Buttons::Shift, true, s);
            let t2 = button_transition(other, t1.1, b, true, s);
            let t3 = button_transition(t1.0, t2.1, Buttons::Shift, false, s);
            &&& forall|i: int|
                0 <= i < t2.2.len() ==> (#[trigger] t2.2[i].message matches MidiMessage::Controller { controller, .. }
                    && controller == shift_combination_cc(b, s))
            &&& t3.2 == Seq::<ChannelMessage>::empty()
            &&& t3.1 == initial_shift_state()
        }),
{
    let t3 = button_transition(
        button_transition(shift_button, st_shift, Buttons::Shift, true, s).0,
        button_transition(
            other,
            button_transition(shift_button, st_shift, Buttons::Shift, true, s).1,
            b,
            true,
            s,
        ).1,
        Buttons::Shift,
        false,
        s,
    );
    assert(t3.2 =~= Seq::<ChannelMessage>::empty());
}

/// A button other than Shift sends at most one control change per event: on
/// the button's channel, with the CC number of the Shift combination while
/// Shift is held and the button's own otherwise, with value 0 or 127, never
/// the value sent last for the button; the value sent becomes the button's
/// last sent value.
pub proof fn lemma_button_sends_at_most_one_new_value(
    st: ButtonState,
    shift: ShiftState,
    b: Buttons,
    pressed: bool,
    s: Settings,
)
    requires
        b != Buttons::Shift,
    ensures
        ({
            let t = button_transition(st, shift, b, pressed, s);
            let cc = if shift.pressed { shift_combination_cc(b, s) } else { single_button_cc(b, s) };
            &&& t.2.len() <= 1
            &&& t.2.len() == 1 ==> {
                &&& (t.0.last_sent_value == 0 || t.0.last_sent_value == 127)
                &&& t.0.last_sent_value != st.last_sent_value
                &&& t.2[0] == cc_message(button_channel_of(b, s), cc, t.0.last_sent_value)
            }
            &&& t.2.len() == 0 ==> t.0.last_sent_value == st.last_sent_value
        }),
{
}

/// A momentary button (not Shift, not a toggle) whose physical state changes
/// ends with 127 as its last sent value when pressed and 0 when released;
/// it sends that value unless it was already the last one sent.
pub proof fn lemma_momentary_button_follows_press(
    st: ButtonState,
    shift: ShiftState,
    b: Buttons,
    pressed: bool,
    s: Settings,
)
    requires
        b != Buttons::Shift,
        !button_is_toggle(b, s),
        st.physical_pressed != pressed,
    ensures
        ({
            let t = button_transition(st, shift, b, pressed, s);
            let v: u8 = if pressed { 127 } else { 0 };
            let cc = if shift.pressed { shift_combination_cc(b, s) } else { single_button_cc(b, s) };
            &&& t.0.last_sent_value == v
            &&& t.2 == if st.last_sent_value == v {
                Seq::<ChannelMessage>::empty()
            } else {
                seq![cc_message(button_channel_of(b, s), cc, v)]
            }
        }),
{
    let t = button_transition(st, shift, b, pressed, s);
    let v: u8 = if pressed { 127 } else { 0 };
    if st.last_sent_value == v {
        assert(t.2 =~= Seq::<ChannelMessage>::empty());
    }
}

/// A toggle button whose last sent value matches its latch (127 when
/// latched, 0 when not) flips its latch on press and sends the new latch
/// value, and sends nothing on release; the last sent value keeps matching
/// the latch.
pub proof fn lemma_toggle_button_latches(st: ButtonState, shift: ShiftState, b: Buttons, s: Settings)
    requires
        b != Buttons::Shift,
        button_is_toggle(b, s),
        !st.physical_pressed,
        st.last_sent_value == (if st.toggle_state { 127u8 } else { 0u8 }),
    ensures
        ({
            let t1 = button_transition(st, shift, b, true, s);
            let t2 = button_transition(t1.0, t1.1, b, false, s);
            let v: u8 = if st.toggle_state { 0 } else { 127 };
            let cc = if shift.pressed { shift_combination_cc(b, s) } else { single_button_cc(b, s) };
            &&& t1.0.toggle_state == !st.toggle_state
            &&& t1.2 == seq![cc_message(button_channel_of(b, s), cc, v)]
            &&& t2.2 == Seq::<ChannelMessage>::empty()
            &&& t2.0.toggle_state == t1.0.toggle_state
            &&& t2.0.last_sent_value == (if t2.0.toggle_state { 127u8 } else { 0u8 })
        }),
{
    let t1 = button_transition(st, shift, b, true, s);
    let t2 = button_transition(t1.0, t1.1, b, false, s);
    assert(t2.2 =~= Seq::<ChannelMessage>::empty());
}

/// Every button's CC numbers are read from the configuration, for any
/// configuration: a button pressed alone uses the field named after it in
/// the button map (the transport buttons in the transport map, the
/// encoder's press and touch in the encoder map), and with Shift held the
/// field named after it in the Shift combination map; Shift keeps its own
/// button-map field.
pub proof fn lemma_cc_numbers_come_from_the_configured_maps(b: Buttons, s: Settings)
    ensures
        b == Buttons::Left ==> single_button_cc(b, s) == s.button_cc_map.left,
        b == Buttons::Right ==> single_button_cc(b, s) == s.button_cc_map.right,
        b == Buttons::Maschine ==> single_button_cc(b, s) == s.button_cc_map.maschine,
        b == Buttons::Star ==> single_button_cc(b, s) == s.button_cc_map.star,
        b == Buttons::Browse ==> single_button_cc(b, s) == s.button_cc_map.browse,
        b == Buttons::Volume ==> single_button_cc(b, s) == s.button_cc_map.volume,
        b == Buttons::Swing ==> single_button_cc(b, s) == s.button_cc_map.swing,
        b == Buttons::Tempo ==> single_button_cc(b, s) == s.button_cc_map.tempo,
        b == Buttons::Plugin ==> single_button_cc(b, s) == s.button_cc_map.plugin,
        b == Buttons::Sampling ==> single_button_cc(b, s) == s.button_cc_map.sampling,
        b == Buttons::Pitch ==> single_button_cc(b, s) == s.button_cc_map.pitch,
        b == Buttons::Mod ==> single_button_cc(b, s) == s.button_cc_map.mod_button,
        b == Buttons::Perform ==> single_button_cc(b, s) == s.button_cc_map.perform,
        b == Buttons::Notes ==> single_button_cc(b, s) == s.button_cc_map.notes,
        b == Buttons::Group ==> single_button_cc(b, s) == s.button_cc_map.group,
        b == Buttons::Auto ==> single_button_cc(b, s) == s.button_cc_map.auto,
        b == Buttons::Lock ==> single_button_cc(b, s) == s.button_cc_map.lock,
        b == Buttons::NoteRepeat ==> single_button_cc(b, s) == s.button_cc_map.note_repeat,
        b == Buttons::Shift ==> single_button_cc(b, s) == s.button_cc_map.shift,
        b == Buttons::FixedVel ==> single_button_cc(b, s) == s.button_cc_map.fixed_vol,
        b == Buttons::PadMode ==> single_button_cc(b, s) == s.button_cc_map.pad_mode,
        b == Buttons::Keyboard ==> single_button_cc(b, s) == s.button_cc_map.keyboard,
        b == Buttons::Chords ==> single_button_cc(b, s) == s.button_cc_map.chords,
        b == Buttons::Step ==> single_button_cc(b, s) == s.button_cc_map.step,
        b == Buttons::Scene ==> single_button_cc(b, s) == s.button_cc_map.scene,
        b == Buttons::Pattern ==> single_button_cc(b, s) == s.button_cc_map.pattern,
        b == Buttons::Events ==> single_button_cc(b, s) == s.button_cc_map.events,
        b == Buttons::Variation ==> single_button_cc(b, s) == s.button_cc_map.variation,
        b == Buttons::Duplicate ==> single_button_cc(b, s) == s.button_cc_map.duplicate,
        b == Buttons::Select ==> single_button_cc(b, s) == s.button_cc_map.select,
        b == Buttons::Solo ==> single_button_cc(b, s) == s.button_cc_map.solo,
        b == Buttons::Mute ==> single_button_cc(b, s) == s.button_cc_map.mute,
        b == Buttons::Play ==> single_button_cc(b, s) == s.transport_cc_map.play,
        b == Buttons::Stop ==> single_button_cc(b, s) == s.transport_cc_map.stop,
        b == Buttons::Rec ==> single_button_cc(b, s) == s.transport_cc_map.rec,
        b == Buttons::Restart ==> single_button_cc(b, s) == s.transport_cc_map.restart,
        b == Buttons::Erase ==> single_button_cc(b, s) == s.transport_cc_map.erase,
        b == Buttons::Tap ==> single_button_cc(b, s) == s.transport_cc_map.tap,
        b == Buttons::Follow ==> single_button_cc(b, s) == s.transport_cc_map.follow,
        b == Buttons::EncoderPress ==> single_button_cc(b, s) == s.encoder_cc_map.press,
        b == Buttons::EncoderTouch ==> single_button_cc(b, s) == s.encoder_cc_map.touch,
        b == Buttons::Left ==> shift_combination_cc(b, s) == s.shift_combinations.left,
        b == Buttons::Right ==> shift_combination_cc(b, s) == s.shift_combinations.right,
        b == Buttons::Maschine ==> shift_combination_cc(b, s) == s.shift_combinations.maschine,
        b == Buttons::Star ==> shift_combination_cc(b, s) == s.shift_combinations.star,
        b == Buttons::Browse ==> shift_combination_cc(b, s) == s.shift_combinations.browse,
        b == Buttons::Volume ==> shift_combination_cc(b, s) == s.shift_combinations.volume,
        b == Buttons::Swing ==> shift_combination_cc(b, s) == s.shift_combinations.swing,
        b == Buttons::Tempo ==> shift_combination_cc(b, s) == s.shift_combinations.tempo,
        b == Buttons::Plugin ==> shift_combination_cc(b, s) == s.shift_combinations.plugin,
        b == Buttons::Sampling ==> shift_combination_cc(b, s) == s.shift_combinations.sampling,
        b == Buttons::Pitch ==> shift_combination_cc(b, s) == s.shift_combinations.pitch,
        b == Buttons::Mod ==> shift_combination_cc(b, s) == s.shift_combinations.mod_button,
        b == Buttons::Perform ==> shift_combination_cc(b, s) == s.shift_combinations.perform,
        b == Buttons::Notes ==> shift_combination_cc(b, s) == s.shift_combinations.notes,
        b == Buttons::Group ==> shift_combination_cc(b, s) == s.shift_combinations.group,
        b == Buttons::Auto ==> shift_combination_cc(b, s) == s.shift_combinations.auto,
        b == Buttons::Lock ==> shift_combination_cc(b, s) == s.shift_combinations.lock,
        b == Buttons::NoteRepeat ==> shift_combination_cc(b, s) == s.shift_combinations.note_repeat,
        b == Buttons::Shift ==> shift_combination_cc(b, s) == s.button_cc_map.shift,
        b == Buttons::FixedVel ==> shift_combination_cc(b, s) == s.shift_combinations.fixed_vel,
        b == Buttons::PadMode ==> shift_combination_cc(b, s) == s.shift_combinations.pad_mode,
        b == Buttons::Keyboard ==> shift_combination_cc(b, s) == s.shift_combinations.keyboard,
        b == Buttons::Chords ==> shift_combination_cc(b, s) == s.shift_combinations.chords,
        b == Buttons::Step ==> shift_combination_cc(b, s) == s.shift_combinations.step,
        b == Buttons::Scene ==> shift_combination_cc(b, s) == s.shift_combinations.scene,
        b == Buttons::Pattern ==> shift_combination_cc(b, s) == s.shift_combinations.pattern,
        b == Buttons::Events ==> shift_combination_cc(b, s) == s.shift_combinations.events,
        b == Buttons::Variation ==> shift_combination_cc(b, s) == s.shift_combinations.variation,
        b == Buttons::Duplicate ==> shift_combination_cc(b, s) == s.shift_combinations.duplicate,
        b == Buttons::Select ==> shift_combination_cc(b, s) == s.shift_combinations.select,
        b == Buttons::Solo ==> shift_combination_cc(b, s) == s.shift_combinations.solo,
        b == Buttons::Mute ==> shift_combination_cc(b, s) == s.shift_combinations.mute,
        b == Buttons::Play ==> shift_combination_cc(b, s) == s.shift_combinations.play,
        b == Buttons::Stop ==> shift_combination_cc(b, s) == s.shift_combinations.stop,
        b == Buttons::Rec ==> shift_combination_cc(b, s) == s.shift_combinations.rec,
        b == Buttons::Restart ==> shift_combination_cc(b, s) == s.shift_combinations.restart,
        b == Buttons::Erase ==> shift_combination_cc(b, s) == s.shift_combinations.erase,
        b == Buttons::Tap ==> shift_combination_cc(b, s) == s.shift_combinations.tap,
        b == Buttons::Follow ==> shift_combination_cc(b, s) == s.shift_combinations.follow,
        b == Buttons::EncoderPress ==> shift_combination_cc(b, s) == s.shift_combinations.encoder_press,
        b == Buttons::EncoderTouch ==> shift_combination_cc(b, s) == s.shift_combinations.encoder_touch,
{
}

/// Every control change a button sends goes out on the channel of its
/// section, for any configuration: the transport channel for Play, Stop,
/// Rec, Restart, Erase, Tap and Follow; the encoder channel for the
/// encoder's press and touch; the button channel for every other button,
/// Shift included.
pub proof fn lemma_messages_go_out_on_the_section_channel(
    st: ButtonState,
    shift: ShiftState,
    b: Buttons,
    pressed: bool,
    s: Settings,
)
    ensures
        ({
            let expected = if b == Buttons::Play || b == Buttons::Stop || b == Buttons::Rec
                || b == Buttons::Restart || b == Buttons::Erase || b == Buttons::Tap || b == Buttons::Follow {
                s.transport_channel
            } else if b == Buttons::EncoderPress || b == Buttons::EncoderTouch {
                s.encoder_channel
            } else {
                s.button_channel
            };
            let t = button_transition(st, shift, b, pressed, s);
            &&& button_channel_of(b, s) == expected
            &&& forall|i: int| 0 <= i < t.2.len() ==> (#[trigger] t.2[i]).channel == expected
        }),
{
    let t = button_transition(st, shift, b, pressed, s);
    if b != Buttons::Shift {
        lemma_button_sends_at_most_one_new_value(st, shift, b, pressed, s);
    }
}

/// The CC number of the button at index `i` when pressed alone, under the
/// default configuration.
pub open spec fn default_single_cc_at(i: int) -> int {
    if i < 32 {
        20 + i
    } else if i == 32 {
        118
    } else if i == 33 {
        117
    } else if i == 34 {
        119
    } else if i == 35 {
        116
    } else if i == 36 {
        120
    } else if i == 37 {
        121
    } else if i == 38 {
        122
    } else if i == 39 {
        52
    } else {
        53
    }
}

/// The Shift combination CC number of the button at index `i` (not Shift),
/// under the default configuration.
pub open spec fn default_combination_cc_at(i: int) -> int {
    if i < 18 {
        60 + i
    } else {
        59 + i
    }
}

proof fn lemma_default_cc_by_index(b: Buttons, s: Settings)
    requires
        crate::settings::is_default_settings(s),
    ensures
        single_button_cc(b, s) == default_single_cc_at(button_index(b) as int),
        b != Buttons::Shift ==> shift_combination_cc(b, s) == default_combination_cc_at(button_index(b) as int),
{
}

/// Under the default configuration the 40 buttons other than Shift have 40
/// distinct CC numbers of their own and 40 distinct Shift combination CC
/// numbers, none of which is also a button's own: holding Shift doubles the
/// mappings to 80.
pub proof fn lemma_default_mappings_are_distinct(b1: Buttons, b2: Buttons, s: Settings)
    requires
        crate::settings::is_default_settings(s),
        b1 != Buttons::Shift,
        b2 != Buttons::Shift,
    ensures
        single_button_cc(b1, s) != shift_combination_cc(b2, s),
        b1 != b2 ==> single_button_cc(b1, s) != single_button_cc(b2, s),
        b1 != b2 ==> shift_combination_cc(b1, s) != shift_combination_cc(b2, s),
{
    lemma_default_cc_by_index(b1, s);
    lemma_default_cc_by_index(b2, s);
    crate::controls::lemma_button_index_roundtrip(b1, button_index(b2) as int);
    crate::controls::lemma_button_index_roundtrip(b2, button_index(b1) as int);
    assert(button_index(Buttons::Shift) == 18);
}

/// The CC number a button sends when pressed alone.
pub fn get_single_button_cc(button: Buttons, settings: &Settings) -> (cc: u8)
    ensures
        cc == single_button_cc(button, *settings),
{
    match button {
            Buttons::Left => settings.button_cc_map.left,
            Buttons::Right => settings.button_cc_map.right,
            Buttons::Maschine => settings.button_cc_map.maschine,
            Buttons::Star => settings.button_cc_map.star,
            Buttons::Browse => settings.button_cc_map.browse,
            Buttons::Volume => settings.button_cc_map.volume,
            Buttons::Swing => settings.button_cc_map.swing,
            Buttons::Tempo => settings.button_cc_map.tempo,
            Buttons::Plugin => settings.button_cc_map.plugin,
            Buttons::Sampling => settings.button_cc_map.sampling,
            Buttons::Pitch => settings.button_cc_map.pitch,
            Buttons::Mod => settings.button_cc_map.mod_button,
            Buttons::Perform => settings.button_cc_map.perform,
            Buttons::Notes => settings.button_cc_map.notes,
            Buttons::Group => settings.button_cc_map.group,
            Buttons::Auto => settings.button_cc_map.auto,
            Buttons::Lock => settings.button_cc_map.lock,
            Buttons::NoteRepeat => settings.button_cc_map.note_repeat,
            Buttons::Shift => settings.button_cc_map.shift,
            Buttons::FixedVel => settings.button_cc_map.fixed_vol,
            Buttons::PadMode => settings.button_cc_map.pad_mode,
            Buttons::Keyboard => settings.button_cc_map.keyboard,
            Buttons::Chords => settings.button_cc_map.chords,
            Buttons::Step => settings.button_cc_map.step,
            Buttons::Scene => settings.button_cc_map.scene,
            Buttons::Pattern => settings.button_cc_map.pattern,
            Buttons::Events => settings.button_cc_map.events,
            Buttons::Variation => settings.button_cc_map.variation,
            Buttons::Duplicate => settings.button_cc_map.duplicate,
            Buttons::Select => settings.button_cc_map.select,
            Buttons::Solo => settings.button_cc_map.solo,
            Buttons::Mute => settings.button_cc_map.mute,
            Buttons::Play => settings.transport_cc_map.play,
            Buttons::Stop => settings.transport_cc_map.stop,
            Buttons::Rec => settings.transport_cc_map.rec,
            Buttons::Restart => settings.transport_cc_map.restart,
            Buttons::Erase => settings.transport_cc_map.erase,
            Buttons::Tap => settings.transport_cc_map.tap,
            Buttons::Follow => settings.transport_cc_map.follow,
            Buttons::EncoderPress => settings.encoder_cc_map.press,
            Buttons::EncoderTouch => settings.encoder_cc_map.touch,
    }
}

/// The CC number a button sends while Shift is held.
pub fn get_shift_combination_cc(button: Buttons, settings: &Settings) -> (cc: u8)
    ensures
        cc == shift_combination_cc(button, *settings),
{
    match button {
            Buttons::Left => settings.shift_combinations.left,
            Buttons::Right => settings.shift_combinations.right,
            Buttons::Maschine => settings.shift_combinations.maschine,
            Buttons::Star => settings.shift_combinations.star,
            Buttons::Browse => settings.shift_combinations.browse,
            Buttons::Volume => settings.shift_combinations.volume,
            Buttons::Swing => settings.shift_combinations.swing,
            Buttons::Tempo => settings.shift_combinations.tempo,
            Buttons::Plugin => settings.shift_combinations.plugin,
            Buttons::Sampling => settings.shift_combinations.sampling,
            Buttons::Pitch => settings.shift_combinations.pitch,
            Buttons::Mod => settings.shift_combinations.mod_button,
            Buttons::Perform => settings.shift_combinations.perform,
            Buttons::Notes => settings.shift_combinations.notes,
            Buttons::Group => settings.shift_combinations.group,
            Buttons::Auto => settings.shift_combinations.auto,
            Buttons::Lock => settings.shift_combinations.lock,
            Buttons::NoteRepeat => settings.shift_combinations.note_repeat,
            Buttons::Shift => get_single_button_cc(button, settings),
            Buttons::FixedVel => settings.shift_combinations.fixed_vel,
            Buttons::PadMode => settings.shift_combinations.pad_mode,
            Buttons::Keyboard => settings.shift_combinations.keyboard,
            Buttons::Chords => settings.shift_combinations.chords,
            Buttons::Step => settings.shift_combinations.step,
            Buttons::Scene => settings.shift_combinations.scene,
            Buttons::Pattern => settings.shift_combinations.pattern,
            Buttons::Events => settings.shift_combinations.events,
            Buttons::Variation => settings.shift_combinations.variation,
            Buttons::Duplicate => settings.shift_combinations.duplicate,
            Buttons::Select => settings.shift_combinations.select,
            Buttons::Solo => settings.shift_combinations.solo,
            Buttons::Mute => settings.shift_combinations.mute,
            Buttons::Play => settings.shift_combinations.play,
            Buttons::Stop => settings.shift_combinations.stop,
            Buttons::Rec => settings.shift_combinations.rec,
            Buttons::Restart => settings.shift_combinations.restart,
            Buttons::Erase => settings.shift_combinations.erase,
            Buttons::Tap => settings.shift_combinations.tap,
            Buttons::Follow => settings.shift_combinations.follow,
            Buttons::EncoderPress => settings.shift_combinations.encoder_press,
            Buttons::EncoderTouch => settings.shift_combinations.encoder_touch,
    }
}

/// The MIDI channel of a button.
pub fn button_channel(button: Buttons, settings: &Settings) -> (ch: u8)
    ensures
        ch == button_channel_of(button, *settings),
{
    match button {
        Buttons::Play | Buttons::Stop | Buttons::Rec | Buttons::Restart | Buttons::Erase
        | Buttons::Tap | Buttons::Follow => settings.transport_channel,
        Buttons::EncoderPress | Buttons::EncoderTouch => settings.encoder_channel,
        _ => settings.button_channel,
    }
}

/// Handles one button event: `button` seen `pressed` (down) or not in a
/// report. Updates the button's entry in `button_states` (creating it from
/// the initial state if absent) and the Shift state, and returns the control
/// changes to send, in order, as `button_transition` describes.
pub fn process_button_event(
    button: Buttons,
    pressed: bool,
    button_states: &mut HashMap<u8, ButtonState>,
    shift_state: &mut ShiftState,
    settings: &Settings,
) -> (sent: Vec<ChannelMessage>)
    ensures
        ({
            let t = button_transition(
                state_in(old(button_states)@, button),
                *old(shift_state),
                button,
                pressed,
                *settings,
            );
            &&& final(button_states)@ == old(button_states)@.insert(button_index(button), t.0)
            &&& *final(shift_state) == t.1
            &&& sent@ == t.2
        }),
{
    let key = button.index();
    let mut state = match button_states.get(&key) {
        Some(s) => *s,
        None => ButtonState::default(),
    };
    let ghost st0 = state;
    assert(st0 == state_in(old(button_states)@, button));
    let mut sent: Vec<ChannelMessage> = Vec::new();

    if state.physical_pressed == pressed {
        button_states.insert(key, state);
        return sent;
    }
    state.physical_pressed = pressed;

    if button == Buttons::Shift {
        if pressed {
            shift_state.pressed = true;
            shift_state.used_as_modifier = false;
        } else {
            shift_state.pressed = false;
            if !shift_state.used_as_modifier {
                let cc_number = get_single_button_cc(button, settings);
                let channel = settings.button_channel;
                sent.push(ChannelMessage {
                    channel,
                    message: MidiMessage::Controller { controller: cc_number, value: 127 },
                });
                sent.push(ChannelMessage {
                    channel,
                    message: MidiMessage::Controller { controller: cc_number, value: 0 },
                });
            }
            shift_state.used_as_modifier = false;
        }
        button_states.insert(key, state);
        return sent;
    }

    let shift_held = shift_state.pressed;
    if shift_state.pressed && pressed {
        shift_state.used_as_modifier = true;
    }

    let button_name = button.name();
    let is_toggle = settings.button_modes.is_toggle(button_name);

    let cc_number = if shift_held {
        get_shift_combination_cc(button, settings)
    } else {
        get_single_button_cc(button, settings)
    };

    let midi_value: u8 = if is_toggle {
        if pressed {
            state.toggle_state = !state.toggle_state;
            if state.toggle_state { 127 } else { 0 }
        } else {
            button_states.insert(key, state);
            return sent;
        }
    } else {
        if pressed { 127 } else { 0 }
    };

    if state.last_sent_value == midi_value {
        button_states.insert(key, state);
        return sent;
    }
    state.last_sent_value = midi_value;

    let channel = button_channel(button, settings);
    sent.push(ChannelMessage {
        channel,
        message: MidiMessage::Controller { controller: cc_number, value: midi_value },
    });
    button_states.insert(key, state);
    sent
}

} // verus!

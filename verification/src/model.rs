//! The addressable controls of the device, the states their LEDs can show,
//! and the protocol code and dense storage index of each.

use vstd::prelude::*;

verus! {

/// A button of the device: two rows of eight, and the two layer selectors.
#[derive(Copy, Clone, Debug, PartialEq, Eq, Structural)]
pub enum Button {
    // Top row
    Button1,
    Button2,
    Button3,
    Button4,
    Button5,
    Button6,
    Button7,
    Button8,
    // Bottom row
    Button9,
    Button10,
    Button11,
    Button12,
    Button13,
    Button14,
    Button15,
    Button16,
    // Layer buttons
    LayerA,
    LayerB,
}

impl Button {
    /// How many values of this type there are.
    pub const COUNT: usize = 18;

    /// The note number that names this button on the wire.
    pub open spec fn spec_to_midi(&self) -> u8 {
        match self {
            Button::Button1 => 0x59,
            Button::Button2 => 0x5a,
            Button::Button3 => 0x28,
            Button::Button4 => 0x29,
            Button::Button5 => 0x2a,
            Button::Button6 => 0x2b,
            Button::Button7 => 0x2c,
            Button::Button8 => 0x2d,
            Button::Button9 => 0x57,
            Button::Button10 => 0x58,
            Button::Button11 => 0x5b,
            Button::Button12 => 0x5c,
            Button::Button13 => 0x56,
            Button::Button14 => 0x5d,
            Button::Button15 => 0x5e,
            Button::Button16 => 0x5f,
            Button::LayerA => 0x54,
            Button::LayerB => 0x55,
        }
    }

    /// The button that a note number names, if any.
    pub open spec fn spec_from_midi(value: u8) -> Option<Self> {
        match value {
            0x59 => Some(Button::Button1),
            0x5a => Some(Button::Button2),
            0x28 => Some(Button::Button3),
            0x29 => Some(Button::Button4),
            0x2a => Some(Button::Button5),
            0x2b => Some(Button::Button6),
            0x2c => Some(Button::Button7),
            0x2d => Some(Button::Button8),
            0x57 => Some(Button::Button9),
            0x58 => Some(Button::Button10),
            0x5b => Some(Button::Button11),
            0x5c => Some(Button::Button12),
            0x56 => Some(Button::Button13),
            0x5d => Some(Button::Button14),
            0x5e => Some(Button::Button15),
            0x5f => Some(Button::Button16),
            0x54 => Some(Button::LayerA),
            0x55 => Some(Button::LayerB),
            _ => None,
        }
    }

    /// The position of this button in dense, zero-based storage.
    pub open spec fn spec_to_index(&self) -> usize {
        match self {
            Button::Button1 => 0,
            Button::Button2 => 1,
            Button::Button3 => 2,
            Button::Button4 => 3,
            Button::Button5 => 4,
            Button::Button6 => 5,
            Button::Button7 => 6,
            Button::Button8 => 7,
            Button::Button9 => 8,
            Button::Button10 => 9,
            Button::Button11 => 10,
            Button::Button12 => 11,
            Button::Button13 => 12,
            Button::Button14 => 13,
            Button::Button15 => 14,
            Button::Button16 => 15,
            Button::LayerA => 16,
            Button::LayerB => 17,
        }
    }

    /// The button stored at a dense index, if the index is in range.
    pub open spec fn spec_from_index(index: usize) -> Option<Self> {
        match index {
            0 => Some(Button::Button1),
            1 => Some(Button::Button2),
            2 => Some(Button::Button3),
            3 => Some(Button::Button4),
            4 => Some(Button::Button5),
            5 => Some(Button::Button6),
            6 => Some(Button::Button7),
            7 => Some(Button::Button8),
            8 => Some(Button::Button9),
            9 => Some(Button::Button10),
            10 => Some(Button::Button11),
            11 => Some(Button::Button12),
            12 => Some(Button::Button13),
            13 => Some(Button::Button14),
            14 => Some(Button::Button15),
            15 => Some(Button::Button16),
            16 => Some(Button::LayerA),
            17 => Some(Button::LayerB),
            _ => None,
        }
    }

    #[verifier::when_used_as_spec(spec_to_midi)]
    pub fn to_midi(&self) -> (code: u8)
        ensures
            code == self.spec_to_midi(),
    {
        match self {
            Button::Button1 => 0x59,
            Button::Button2 => 0x5a,
            Button::Button3 => 0x28,
            Button::Button4 => 0x29,
            Button::Button5 => 0x2a,
            Button::Button6 => 0x2b,
            Button::Button7 => 0x2c,
            Button::Button8 => 0x2d,
            Button::Button9 => 0x57,
            Button::Button10 => 0x58,
            Button::Button11 => 0x5b,
            Button::Button12 => 0x5c,
            Button::Button13 => 0x56,
            Button::Button14 => 0x5d,
            Button::Button15 => 0x5e,
            Button::Button16 => 0x5f,
            Button::LayerA => 0x54,
            Button::LayerB => 0x55,
        }
    }

    #[verifier::when_used_as_spec(spec_from_midi)]
    pub fn from_midi(value: u8) -> (found: Option<Self>)
        ensures
            found == Self::spec_from_midi(value),
    {
        match value {
            0x59 => Some(Button::Button1),
            0x5a => Some(Button::Button2),
            0x28 => Some(Button::Button3),
            0x29 => Some(Button::Button4),
            0x2a => Some(Button::Button5),
            0x2b => Some(Button::Button6),
            0x2c => Some(Button::Button7),
            0x2d => Some(Button::Button8),
            0x57 => Some(Button::Button9),
            0x58 => Some(Button::Button10),
            0x5b => Some(Button::Button11),
            0x5c => Some(Button::Button12),
            0x56 => Some(Button::Button13),
            0x5d => Some(Button::Button14),
            0x5e => Some(Button::Button15),
            0x5f => Some(Button::Button16),
            0x54 => Some(Button::LayerA),
            0x55 => Some(Button::LayerB),
            _ => None,
        }
    }

    #[verifier::when_used_as_spec(spec_to_index)]
    pub fn to_index(&self) -> (index: usize)
        ensures
            index == self.spec_to_index(),
            index < Self::COUNT,
    {
        match self {
            Button::Button1 => 0,
            Button::Button2 => 1,
            Button::Button3 => 2,
            Button::Button4 => 3,
            Button::Button5 => 4,
            Button::Button6 => 5,
            Button::Button7 => 6,
            Button::Button8 => 7,
            Button::Button9 => 8,
            Button::Button10 => 9,
            Button::Button11 => 10,
            Button::Button12 => 11,
            Button::Button13 => 12,
            Button::Button14 => 13,
            Button::Button15 => 14,
            Button::Button16 => 15,
            Button::LayerA => 16,
            Button::LayerB => 17,
        }
    }

    #[verifier::when_used_as_spec(spec_from_index)]
    pub fn from_index(index: usize) -> (found: Option<Self>)
        ensures
            found == Self::spec_from_index(index),
            found is Some <==> index < Self::COUNT,
    {
        match index {
            0 => Some(Button::Button1),
            1 => Some(Button::Button2),
            2 => Some(Button::Button3),
            3 => Some(Button::Button4),
            4 => Some(Button::Button5),
            5 => Some(Button::Button6),
            6 => Some(Button::Button7),
            7 => Some(Button::Button8),
            8 => Some(Button::Button9),
            9 => Some(Button::Button10),
            10 => Some(Button::Button11),
            11 => Some(Button::Button12),
            12 => Some(Button::Button13),
            13 => Some(Button::Button14),
            14 => Some(Button::Button15),
            15 => Some(Button::Button16),
            16 => Some(Button::LayerA),
            17 => Some(Button::LayerB),
            _ => None,
        }
    }

    /// The code and the value name each other: `from_midi` undoes `to_midi`,
    /// and finds nothing for a code that no value has.
    pub proof fn lemma_midi_inverse(value: Self, code: u8)
        ensures
            Self::from_midi(value.to_midi()) == Some(value),
            Self::from_midi(code) == Some(value) <==> value.to_midi() == code,
    {
    }

    /// The dense index is a bijection onto `0..COUNT`: `from_index` undoes
    /// `to_index`, and finds nothing at or beyond `COUNT`.
    pub proof fn lemma_index_inverse(value: Self, index: usize)
        ensures
            value.to_index() < Self::COUNT,
            Self::from_index(value.to_index()) == Some(value),
            Self::from_index(index) == Some(value) <==> value.to_index() == index,
            Self::from_index(index) is Some <==> index < Self::COUNT,
    {
    }
}

/// A rotary knob of the device, each with a ring of LEDs.
///
/// A knob's code is its number, one to eight. On the wire the code is
/// offset by a constant that depends on the kind of message: see
/// [`Category`].
#[derive(Copy, Clone, Debug, PartialEq, Eq, Structural)]
pub enum Knob {
    Knob1,
    Knob2,
    Knob3,
    Knob4,
    Knob5,
    Knob6,
    Knob7,
    Knob8,
}

impl Knob {
    /// How many values of this type there are.
    pub const COUNT: usize = 8;

    /// The code of this knob: its number, one to eight.
    pub open spec fn spec_to_midi(&self) -> u8 {
        match self {
            Knob::Knob1 => 0x01,
            Knob::Knob2 => 0x02,
            Knob::Knob3 => 0x03,
            Knob::Knob4 => 0x04,
            Knob::Knob5 => 0x05,
            Knob::Knob6 => 0x06,
            Knob::Knob7 => 0x07,
            Knob::Knob8 => 0x08,
        }
    }

    /// The knob that a code names, if any.
    pub open spec fn spec_from_midi(value: u8) -> Option<Self> {
        match value {
            0x01 => Some(Knob::Knob1),
            0x02 => Some(Knob::Knob2),
            0x03 => Some(Knob::Knob3),
            0x04 => Some(Knob::Knob4),
            0x05 => Some(Knob::Knob5),
            0x06 => Some(Knob::Knob6),
            0x07 => Some(Knob::Knob7),
            0x08 => Some(Knob::Knob8),
            _ => None,
        }
    }

    /// The position of this knob in dense, zero-based storage.
    pub open spec fn spec_to_index(&self) -> usize {
        match self {
            Knob::Knob1 => 0,
            Knob::Knob2 => 1,
            Knob::Knob3 => 2,
            Knob::Knob4 => 3,
            Knob::Knob5 => 4,
            Knob::Knob6 => 5,
            Knob::Knob7 => 6,
            Knob::Knob8 => 7,
        }
    }

    /// The knob stored at a dense index, if the index is in range.
    pub open spec fn spec_from_index(index: usize) -> Option<Self> {
        match index {
            0 => Some(Knob::Knob1),
            1 => Some(Knob::Knob2),
            2 => Some(Knob::Knob3),
            3 => Some(Knob::Knob4),
            4 => Some(Knob::Knob5),
            5 => Some(Knob::Knob6),
            6 => Some(Knob::Knob7),
            7 => Some(Knob::Knob8),
            _ => None,
        }
    }

    #[verifier::when_used_as_spec(spec_to_midi)]
    pub fn to_midi(&self) -> (code: u8)
        ensures
            code == self.spec_to_midi(),
    {
        match self {
            Knob::Knob1 => 0x01,
            Knob::Knob2 => 0x02,
            Knob::Knob3 => 0x03,
            Knob::Knob4 => 0x04,
            Knob::Knob5 => 0x05,
            Knob::Knob6 => 0x06,
            Knob::Knob7 => 0x07,
            Knob::Knob8 => 0x08,
        }
    }

    #[verifier::when_used_as_spec(spec_from_midi)]
    pub fn from_midi(value: u8) -> (found: Option<Self>)
        ensures
            found == Self::spec_from_midi(value),
    {
        match value {
            0x01 => Some(Knob::Knob1),
            0x02 => Some(Knob::Knob2),
            0x03 => Some(Knob::Knob3),
            0x04 => Some(Knob::Knob4),
            0x05 => Some(Knob::Knob5),
            0x06 => Some(Knob::Knob6),
            0x07 => Some(Knob::Knob7),
            0x08 => Some(Knob::Knob8),
            _ => None,
        }
    }

    #[verifier::when_used_as_spec(spec_to_index)]
    pub fn to_index(&self) -> (index: usize)
        ensures
            index == self.spec_to_index(),
            index < Self::COUNT,
    {
        match self {
            Knob::Knob1 => 0,
            Knob::Knob2 => 1,
            Knob::Knob3 => 2,
            Knob::Knob4 => 3,
            Knob::Knob5 => 4,
            Knob::Knob6 => 5,
            Knob::Knob7 => 6,
            Knob::Knob8 => 7,
        }
    }

    #[verifier::when_used_as_spec(spec_from_index)]
    pub fn from_index(index: usize) -> (found: Option<Self>)
        ensures
            found == Self::spec_from_index(index),
            found is Some <==> index < Self::COUNT,
    {
        match index {
            0 => Some(Knob::Knob1),
            1 => Some(Knob::Knob2),
            2 => Some(Knob::Knob3),
            3 => Some(Knob::Knob4),
            4 => Some(Knob::Knob5),
            5 => Some(Knob::Knob6),
            6 => Some(Knob::Knob7),
            7 => Some(Knob::Knob8),
            _ => None,
        }
    }

    /// The code and the value name each other: `from_midi` undoes `to_midi`,
    /// and finds nothing for a code that no value has.
    pub proof fn lemma_midi_inverse(value: Self, code: u8)
        ensures
            Self::from_midi(value.to_midi()) == Some(value),
            Self::from_midi(code) == Some(value) <==> value.to_midi() == code,
    {
    }

    /// The dense index is a bijection onto `0..COUNT`: `from_index` undoes
    /// `to_index`, and finds nothing at or beyond `COUNT`.
    pub proof fn lemma_index_inverse(value: Self, index: usize)
        ensures
            value.to_index() < Self::COUNT,
            Self::from_index(value.to_index()) == Some(value),
            Self::from_index(index) == Some(value) <==> value.to_index() == index,
            Self::from_index(index) is Some <==> index < Self::COUNT,
    {
    }

    /// What is added to a knob's code in a knob-turn message.
    pub const TURN_OFFSET: u8 = 0x0f;

    /// What is added to a knob's code in a knob-press message.
    pub const PRESS_OFFSET: u8 = 0x1f;

    /// What is added to a knob's code in a message that sets its LED ring.
    pub const LED_OFFSET: u8 = 0x2f;

    /// The controller number under which this knob reports a turn.
    pub open spec fn spec_turn_code(&self) -> u8 {
        (self.to_midi() + Knob::TURN_OFFSET) as u8
    }

    /// The knob that reports turns under a controller number, if any.
    pub open spec fn spec_from_turn_code(code: u8) -> Option<Self> {
        if code >= Knob::TURN_OFFSET {
            Knob::from_midi((code - Knob::TURN_OFFSET) as u8)
        } else {
            None
        }
    }

    /// The note number under which this knob reports a press.
    pub open spec fn spec_press_code(&self) -> u8 {
        (self.to_midi() + Knob::PRESS_OFFSET) as u8
    }

    /// The knob that reports presses under a note number, if any.
    pub open spec fn spec_from_press_code(code: u8) -> Option<Self> {
        if code >= Knob::PRESS_OFFSET {
            Knob::from_midi((code - Knob::PRESS_OFFSET) as u8)
        } else {
            None
        }
    }

    /// The controller number that addresses this knob's LED ring.
    pub open spec fn spec_led_code(&self) -> u8 {
        (self.to_midi() + Knob::LED_OFFSET) as u8
    }

    #[verifier::when_used_as_spec(spec_turn_code)]
    pub fn turn_code(&self) -> (code: u8)
        ensures
            code == self.spec_turn_code(),
            0x10 <= code <= 0x17,
    {
        self.to_midi() + Knob::TURN_OFFSET
    }

    #[verifier::when_used_as_spec(spec_from_turn_code)]
    pub fn from_turn_code(code: u8) -> (found: Option<Self>)
        ensures
            found == Self::spec_from_turn_code(code),
            found is Some <==> 0x10 <= code <= 0x17,
    {
        if code >= Knob::TURN_OFFSET {
            Knob::from_midi(code - Knob::TURN_OFFSET)
        } else {
            None
        }
    }

    #[verifier::when_used_as_spec(spec_press_code)]
    pub fn press_code(&self) -> (code: u8)
        ensures
            code == self.spec_press_code(),
            0x20 <= code <= 0x27,
    {
        self.to_midi() + Knob::PRESS_OFFSET
    }

    #[verifier::when_used_as_spec(spec_from_press_code)]
    pub fn from_press_code(code: u8) -> (found: Option<Self>)
        ensures
            found == Self::spec_from_press_code(code),
            found is Some <==> 0x20 <= code <= 0x27,
    {
        if code >= Knob::PRESS_OFFSET {
            Knob::from_midi(code - Knob::PRESS_OFFSET)
        } else {
            None
        }
    }

    #[verifier::when_used_as_spec(spec_led_code)]
    pub fn led_code(&self) -> (code: u8)
        ensures
            code == self.spec_led_code(),
            0x30 <= code <= 0x37,
    {
        self.to_midi() + Knob::LED_OFFSET
    }

    /// Within the knob-turn messages a controller number and a knob name
    /// each other.
    pub proof fn lemma_turn_code_inverse(knob: Knob, code: u8)
        ensures
            Knob::from_turn_code(knob.turn_code()) == Some(knob),
            Knob::from_turn_code(code) == Some(knob) <==> knob.turn_code() == code,
    {
    }

    /// Within the knob-press messages a note number and a knob name each
    /// other.
    pub proof fn lemma_press_code_inverse(knob: Knob, code: u8)
        ensures
            Knob::from_press_code(knob.press_code()) == Some(knob),
            Knob::from_press_code(code) == Some(knob) <==> knob.press_code() == code,
    {
    }

    /// Buttons and knob presses share one kind of message, and no note
    /// number means both: a button's note is never a knob's press note.
    pub proof fn lemma_press_codes_are_no_buttons(knob: Knob, button: Button)
        ensures
            knob.press_code() != button.to_midi(),
            Knob::from_press_code(button.to_midi()) is None,
            Button::from_midi(knob.press_code()) is None,
    {
    }
}

/// The kind of message in which a code names a control. The same number can
/// mean different controls in different kinds of message.
#[derive(Copy, Clone, Debug, PartialEq, Eq, Structural)]
pub enum Category {
    /// Note messages outside the knob-press range: the code is a button's.
    Button,
    /// Controller messages from the device: the code is a knob's turn code.
    KnobTurn,
    /// Note messages inside the knob-press range: the code is a knob's
    /// press code.
    KnobPress,
}

/// What a button's LED shows.
#[derive(Copy, Clone, Debug, PartialEq, Eq, Structural)]
pub enum ButtonLedState {
    Off,
    On,
    Blink,
}

impl ButtonLedState {
    /// How many values of this type there are.
    pub const COUNT: usize = 3;

    /// The data byte that asks the device for this LED state.
    pub open spec fn spec_to_midi(&self) -> u8 {
        match self {
            ButtonLedState::Off => 0x00,
            ButtonLedState::On => 0x7f,
            ButtonLedState::Blink => 0x01,
        }
    }

    /// The LED state that a data byte asks for, if any.
    pub open spec fn spec_from_midi(value: u8) -> Option<Self> {
        match value {
            0x00 => Some(ButtonLedState::Off),
            0x7f => Some(ButtonLedState::On),
            0x01 => Some(ButtonLedState::Blink),
            _ => None,
        }
    }

    /// The position of this LED state among the three.
    pub open spec fn spec_to_index(&self) -> usize {
        match self {
            ButtonLedState::Off => 0,
            ButtonLedState::On => 1,
            ButtonLedState::Blink => 2,
        }
    }

    /// The LED state at a position, if the position is in range.
    pub open spec fn spec_from_index(index: usize) -> Option<Self> {
        match index {
            0 => Some(ButtonLedState::Off),
            1 => Some(ButtonLedState::On),
            2 => Some(ButtonLedState::Blink),
            _ => None,
        }
    }

    #[verifier::when_used_as_spec(spec_to_midi)]
    pub fn to_midi(&self) -> (code: u8)
        ensures
            code == self.spec_to_midi(),
    {
        match self {
            ButtonLedState::Off => 0x00,
            ButtonLedState::On => 0x7f,
            ButtonLedState::Blink => 0x01,
        }
    }

    #[verifier::when_used_as_spec(spec_from_midi)]
    pub fn from_midi(value: u8) -> (found: Option<Self>)
        ensures
            found == Self::spec_from_midi(value),
    {
        match value {
            0x00 => Some(ButtonLedState::Off),
            0x7f => Some(ButtonLedState::On),
            0x01 => Some(ButtonLedState::Blink),
            _ => None,
        }
    }

    #[verifier::when_used_as_spec(spec_to_index)]
    pub fn to_index(&self) -> (index: usize)
        ensures
            index == self.spec_to_index(),
            index < Self::COUNT,
    {
        match self {
            ButtonLedState::Off => 0,
            ButtonLedState::On => 1,
            ButtonLedState::Blink => 2,
        }
    }

    #[verifier::when_used_as_spec(spec_from_index)]
    pub fn from_index(index: usize) -> (found: Option<Self>)
        ensures
            found == Self::spec_from_index(index),
            found is Some <==> index < Self::COUNT,
    {
        match index {
            0 => Some(ButtonLedState::Off),
            1 => Some(ButtonLedState::On),
            2 => Some(ButtonLedState::Blink),
            _ => None,
        }
    }

    /// The code and the value name each other: `from_midi` undoes `to_midi`,
    /// and finds nothing for a code that no value has.
    pub proof fn lemma_midi_inverse(value: Self, code: u8)
        ensures
            Self::from_midi(value.to_midi()) == Some(value),
            Self::from_midi(code) == Some(value) <==> value.to_midi() == code,
    {
    }

    /// The dense index is a bijection onto `0..COUNT`: `from_index` undoes
    /// `to_index`, and finds nothing at or beyond `COUNT`.
    pub proof fn lemma_index_inverse(value: Self, index: usize)
        ensures
            value.to_index() < Self::COUNT,
            Self::from_index(value.to_index()) == Some(value),
            Self::from_index(index) == Some(value) <==> value.to_index() == index,
            Self::from_index(index) is Some <==> index < Self::COUNT,
    {
    }
}

impl ButtonLedState {
    /// Whether the LED is steadily lit.
    pub open spec fn spec_is_on(&self) -> bool {
        *self == ButtonLedState::On
    }

    /// What the LED shows when it is toggled: off if it was on, on if it
    /// was off or blinking.
    pub open spec fn spec_negated(&self) -> ButtonLedState {
        if self.is_on() {
            ButtonLedState::Off
        } else {
            ButtonLedState::On
        }
    }

    #[verifier::when_used_as_spec(spec_is_on)]
    pub fn is_on(&self) -> (on: bool)
        ensures
            on == self.spec_is_on(),
    {
        matches!(self, ButtonLedState::On)
    }

    #[verifier::when_used_as_spec(spec_negated)]
    pub fn negated(&self) -> (toggled: ButtonLedState)
        ensures
            toggled == self.spec_negated(),
    {
        if self.is_on() {
            ButtonLedState::Off
        } else {
            ButtonLedState::On
        }
    }
}

impl Default for ButtonLedState {
    fn default() -> (state: Self)
        ensures
            state == ButtonLedState::Off,
    {
        ButtonLedState::Off
    }
}

/// How a knob's LED ring renders its value.
#[derive(Copy, Clone, Debug, PartialEq, Eq, Structural)]
pub enum KnobLedStyle {
    /// One LED is lit.
    Single,
    /// Has no visible effect in the Mackie Control operation mode.
    Pan,
    /// Lights all LEDs from the left up to the value.
    Fan,
    /// Shows as `Single` does in the Mackie Control operation mode.
    Spread,
    /// Lights all LEDs from the top up to the value, on one side.
    Trim,
}

impl KnobLedStyle {
    /// What this style adds to the ring value in the data byte.
    pub open spec fn spec_offset(&self) -> u8 {
        match self {
            KnobLedStyle::Single => 0x00,
            KnobLedStyle::Trim => 0x10,
            KnobLedStyle::Fan => 0x20,
            KnobLedStyle::Spread => 0x40,
            KnobLedStyle::Pan => 0x50,
        }
    }

    #[verifier::when_used_as_spec(spec_offset)]
    pub fn offset(&self) -> (offset: u8)
        ensures
            offset == self.spec_offset(),
    {
        match self {
            KnobLedStyle::Single => 0x00,
            KnobLedStyle::Trim => 0x10,
            KnobLedStyle::Fan => 0x20,
            KnobLedStyle::Spread => 0x40,
            KnobLedStyle::Pan => 0x50,
        }
    }
}

impl Default for KnobLedStyle {
    fn default() -> (style: Self)
        ensures
            style == KnobLedStyle::Single,
    {
        KnobLedStyle::Single
    }
}

/// How far a knob's LED ring is filled: a number from [`KnobValue::MIN`] to
/// [`KnobValue::MAX`].
#[derive(Copy, Clone, Debug, PartialEq, Eq, Structural)]
pub struct KnobValue(u8);

impl View for KnobValue {
    type V = u8;

    closed spec fn view(&self) -> u8 {
        self.0
    }
}

impl KnobValue {
    /// The lowest ring value: nothing is lit.
    pub const MIN: u8 = 0;

    /// The highest ring value. The ring has twelve positions, of which one
    /// is reserved.
    pub const MAX: u8 = 11;

    #[verifier::type_invariant]
    spec fn in_range(self) -> bool {
        self.0 <= KnobValue::MAX
    }

    /// The ring value at which nothing is lit.
    pub closed spec fn lowest() -> KnobValue {
        KnobValue(KnobValue::MIN)
    }

    /// The lowest ring value is the one whose number is [`KnobValue::MIN`].
    pub proof fn lemma_lowest()
        ensures
            KnobValue::lowest()@ == KnobValue::MIN,
            KnobValue::lowest().is_valid(),
    {
    }

    /// Whether the value is one that the ring can show. Every value that
    /// executable code holds is.
    pub open spec fn is_valid(&self) -> bool {
        self@ <= KnobValue::MAX
    }

    /// The ring value nearest to `value`: `value` itself up to the maximum,
    /// the maximum above it.
    pub fn new(value: u8) -> (clamped: Self)
        ensures
            clamped@ == if value <= KnobValue::MAX { value } else { KnobValue::MAX },
            clamped.is_valid(),
    {
        if value <= KnobValue::MAX {
            KnobValue(value)
        } else {
            KnobValue(KnobValue::MAX)
        }
    }

    /// A ring value is its number and nothing else: two values with the
    /// same number are the same value.
    pub proof fn lemma_view_is_injective(a: KnobValue, b: KnobValue)
        ensures
            a@ == b@ <==> a == b,
    {
    }

    /// The value as a number.
    pub fn get(&self) -> (value: u8)
        ensures
            value == self@,
            self.is_valid(),
    {
        proof {
            use_type_invariant(self);
        }
        self.0
    }
}

impl Default for KnobValue {
    fn default() -> (value: Self)
        ensures
            value == KnobValue::lowest(),
            value@ == KnobValue::MIN,
    {
        KnobValue(KnobValue::MIN)
    }
}

/// What a knob's LED ring shows: a style and a value.
#[derive(Copy, Clone, Debug, PartialEq, Eq, Structural)]
pub struct KnobState {
    pub style: KnobLedStyle,
    pub value: KnobValue,
}

impl Default for KnobState {
    fn default() -> (state: Self)
        ensures
            state.style == KnobLedStyle::Single,
            state.value == KnobValue::lowest(),
            state.value@ == KnobValue::MIN,
    {
        KnobState { style: KnobLedStyle::Single, value: KnobValue(KnobValue::MIN) }
    }
}

/// The position of the fader, from 0 to 127 on the device.
#[derive(Copy, Clone, Debug, PartialEq, Eq, Structural)]
pub struct FaderValue(pub u8);

impl FaderValue {
    /// The fader at the bottom of its travel.
    pub const MIN: u8 = 0;

    /// The fader at the top of its travel.
    pub const MAX: u8 = 127;
}

impl Default for FaderValue {
    fn default() -> (value: Self)
        ensures
            value.0 == FaderValue::MIN,
    {
        FaderValue(FaderValue::MIN)
    }
}

} // verus!

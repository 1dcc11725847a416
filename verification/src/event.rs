//! Inbound frames and the events they stand for.

use crate::command::{Command, CONTROL_CHANGE, FADER, NOTE_ON};
use crate::model::{Button, ButtonLedState, Category, FaderValue, Knob};
use vstd::prelude::*;

verus! {

/// Something that happened on the device.
#[derive(Copy, Clone, Debug, PartialEq, Eq, Structural)]
pub enum Event {
    ButtonPressed { button: Button, is_down: bool },
    KnobPressed { knob: Knob, is_down: bool },
    /// A knob was turned by `delta` steps, in the direction of the sign.
    KnobTurned { knob: Knob, delta: i16 },
    FaderMoved { value: FaderValue },
}

/// Why a frame stands for no event. The error borrows the frame: decoding
/// allocates nothing.
#[derive(Copy, Clone, Debug, PartialEq, Eq)]
pub enum DecodeError<'a> {
    /// The frame is not three bytes long, or its first byte is the start of
    /// no message that the device sends. Carries the frame.
    Unrecognized { bytes: &'a [u8] },
    /// The message is one that the device sends, but its second byte names
    /// no control in such a message. Carries that byte.
    UnknownControl { category: Category, code: u8 },
}

/// A [`DecodeError`] with the frame it carries as a sequence.
pub enum DecodeErrorView {
    Unrecognized { bytes: Seq<u8> },
    UnknownControl { category: Category, code: u8 },
}

impl<'a> View for DecodeError<'a> {
    type V = DecodeErrorView;

    open spec fn view(&self) -> DecodeErrorView {
        match self {
            DecodeError::Unrecognized { bytes } => DecodeErrorView::Unrecognized { bytes: bytes@ },
            DecodeError::UnknownControl { category, code } => DecodeErrorView::UnknownControl {
                category: *category,
                code: *code,
            },
        }
    }
}

/// Data bytes from this one on stand for a turn in the negative direction.
pub const TURN_MIDPOINT: u8 = 64;

/// Data byte of a press message for a control that is held down.
pub const PRESS_DOWN: u8 = 0x7f;

/// The signed rotation that the data byte of a knob-turn message stands
/// for. A byte below the midpoint is that many steps in the positive
/// direction; a byte at or above it is as many steps in the negative
/// direction as it exceeds the midpoint. This is not two's complement.
pub open spec fn turn_delta(value: u8) -> i16 {
    if value >= TURN_MIDPOINT {
        (-(value - TURN_MIDPOINT)) as i16
    } else {
        value as i16
    }
}

impl Event {
    /// What a frame stands for: the event, or why there is none.
    ///
    /// The first byte decides what the message is. In a controller message
    /// the second byte names the knob that was turned. In a note message it
    /// names a knob that was pressed if it lies in the knob-press range, and
    /// a button otherwise; the third byte is zero for a release. In a fader
    /// message the second byte is ignored and the third is the position.
    pub open spec fn decoded(bytes: Seq<u8>) -> Result<Event, DecodeErrorView> {
        if bytes.len() != 3 {
            Err(DecodeErrorView::Unrecognized { bytes })
        } else if bytes[0] == CONTROL_CHANGE {
            match Knob::from_turn_code(bytes[1]) {
                Some(knob) => Ok(Event::KnobTurned { knob, delta: turn_delta(bytes[2]) }),
                None => Err(
                    DecodeErrorView::UnknownControl { category: Category::KnobTurn, code: bytes[1] },
                ),
            }
        } else if bytes[0] == FADER {
            Ok(Event::FaderMoved { value: FaderValue(bytes[2]) })
        } else if bytes[0] == NOTE_ON {
            match Knob::from_press_code(bytes[1]) {
                Some(knob) => Ok(Event::KnobPressed { knob, is_down: bytes[2] != 0 }),
                None => match Button::from_midi(bytes[1]) {
                    Some(button) => Ok(Event::ButtonPressed { button, is_down: bytes[2] != 0 }),
                    None => Err(
                        DecodeErrorView::UnknownControl {
                            category: Category::Button,
                            code: bytes[1],
                        },
                    ),
                },
            }
        } else {
            Err(DecodeErrorView::Unrecognized { bytes })
        }
    }

    /// What decoding a frame returns: what the frame stands for, with the
    /// frame itself in the error that carries it.
    pub open spec fn spec_decode<'a>(bytes: &'a [u8]) -> Result<Event, DecodeError<'a>> {
        match Event::decoded(bytes@) {
            Ok(event) => Ok(event),
            Err(DecodeErrorView::Unrecognized { .. }) => Err(DecodeError::Unrecognized { bytes }),
            Err(DecodeErrorView::UnknownControl { category, code }) => Err(
                DecodeError::UnknownControl { category, code },
            ),
        }
    }

    /// Decodes one inbound frame.
    #[verifier::when_used_as_spec(spec_decode)]
    pub fn decode<'a>(bytes: &'a [u8]) -> (result: Result<Event, DecodeError<'a>>)
        ensures
            result == Event::spec_decode(bytes),
    {
        if bytes.len() != 3 {
            return Err(DecodeError::Unrecognized { bytes });
        }
        let status = bytes[0];
        let code = bytes[1];
        let value = bytes[2];
        if status == CONTROL_CHANGE {
            match Knob::from_turn_code(code) {
                Some(knob) => {
                    let delta: i16 = if value >= TURN_MIDPOINT {
                        -((value - TURN_MIDPOINT) as i16)
                    } else {
                        value as i16
                    };
                    Ok(Event::KnobTurned { knob, delta })
                },
                None => Err(DecodeError::UnknownControl { category: Category::KnobTurn, code }),
            }
        } else if status == FADER {
            Ok(Event::FaderMoved { value: FaderValue(value) })
        } else if status == NOTE_ON {
            let is_down = value != 0;
            match Knob::from_press_code(code) {
                Some(knob) => Ok(Event::KnobPressed { knob, is_down }),
                None => match Button::from_midi(code) {
                    Some(button) => Ok(Event::ButtonPressed { button, is_down }),
                    None => Err(DecodeError::UnknownControl { category: Category::Button, code }),
                },
            }
        } else {
            Err(DecodeError::Unrecognized { bytes })
        }
    }

    /// Whether some frame stands for this event. Every event does, but a
    /// turn by more steps than a data byte can say.
    pub open spec fn is_encodable(&self) -> bool {
        match self {
            Event::KnobTurned { knob, delta } => TURN_MIDPOINT - u8::MAX <= *delta < TURN_MIDPOINT,
            _ => true,
        }
    }

    /// The frame in which the device reports this event. Where several
    /// frames stand for one event, it is the one with the ignored byte at
    /// zero, a press as [`PRESS_DOWN`], and no turn as zero.
    pub open spec fn frame(&self) -> Seq<u8> {
        match self {
            Event::ButtonPressed { button, is_down } => seq![
                NOTE_ON,
                button.to_midi(),
                if *is_down { PRESS_DOWN } else { 0u8 },
            ],
            Event::KnobPressed { knob, is_down } => seq![
                NOTE_ON,
                knob.press_code(),
                if *is_down { PRESS_DOWN } else { 0u8 },
            ],
            Event::KnobTurned { knob, delta } => seq![
                CONTROL_CHANGE,
                knob.turn_code(),
                if *delta >= 0 { *delta as u8 } else { (TURN_MIDPOINT - *delta) as u8 },
            ],
            Event::FaderMoved { value } => seq![FADER, 0u8, value.0],
        }
    }

    /// Encodes the event as the device would report it, if a frame can say
    /// it.
    pub fn as_bytes(&self) -> (bytes: Option<[u8; 3]>)
        ensures
            bytes is Some <==> self.is_encodable(),
            bytes matches Some(frame) ==> frame@ == self.frame(),
    {
        let bytes = match self {
            Event::ButtonPressed { button, is_down } => {
                [NOTE_ON, button.to_midi(), if *is_down { PRESS_DOWN } else { 0u8 }]
            },
            Event::KnobPressed { knob, is_down } => {
                [NOTE_ON, knob.press_code(), if *is_down { PRESS_DOWN } else { 0u8 }]
            },
            Event::KnobTurned { knob, delta } => {
                if *delta >= TURN_MIDPOINT as i16 || *delta < TURN_MIDPOINT as i16 - u8::MAX as i16 {
                    return None;
                }
                let value: u8 = if *delta >= 0 {
                    *delta as u8
                } else {
                    (TURN_MIDPOINT as i16 - *delta) as u8
                };
                [CONTROL_CHANGE, knob.turn_code(), value]
            },
            Event::FaderMoved { value } => [FADER, 0u8, value.0],
        };
        assert(bytes@ =~= self.frame());
        Some(bytes)
    }

    /// Decoding undoes encoding: the frame of an event stands for that
    /// event and no other.
    pub proof fn lemma_decode_undoes_encode(event: Event)
        requires
            event.is_encodable(),
        ensures
            Event::decoded(event.frame()) == Ok::<Event, DecodeErrorView>(event),
    {
        match event {
            Event::ButtonPressed { button, is_down } => {
                Button::lemma_midi_inverse(button, button.to_midi());
                Knob::lemma_press_codes_are_no_buttons(Knob::Knob1, button);
            },
            Event::KnobPressed { knob, is_down } => {
                Knob::lemma_press_code_inverse(knob, knob.press_code());
            },
            Event::KnobTurned { knob, delta } => {
                Knob::lemma_turn_code_inverse(knob, knob.turn_code());
            },
            Event::FaderMoved { value } => {},
        }
    }

    /// Every event that a frame stands for can be encoded again, and the
    /// frame that this gives stands for the same event.
    pub proof fn lemma_decoded_event_round_trips(bytes: Seq<u8>)
        ensures
            Event::decoded(bytes) matches Ok(event) ==> {
                &&& event.is_encodable()
                &&& Event::decoded(event.frame()) == Event::decoded(bytes)
            },
    {
        if let Ok(event) = Event::decoded(bytes) {
            Self::lemma_decode_undoes_encode(event);
        }
    }

    /// The frame that sets a button's LED is, read as an inbound frame, a
    /// press or release of that same button: a press unless the LED is set
    /// to off. These are the frames for which both directions exist.
    pub proof fn lemma_button_command_reads_back(button: Button, state: ButtonLedState)
        ensures
            Event::decoded(Command::SetButtonLedState { button, state }.frame()) == Ok::<
                Event,
                DecodeErrorView,
            >(Event::ButtonPressed { button, is_down: state != ButtonLedState::Off }),
    {
        Button::lemma_midi_inverse(button, button.to_midi());
        Knob::lemma_press_codes_are_no_buttons(Knob::Knob1, button);
    }

    /// Decodes frames in the order given. There is one result for each
    /// frame, at the place of its frame: a frame that stands for no event
    /// gives an error there and stops nothing.
    pub fn decode_all<'a>(frames: &'a [Vec<u8>]) -> (results: Vec<Result<Event, DecodeError<'a>>>)
        ensures
            results@.len() == frames@.len(),
            forall|i: int|
                0 <= i < frames@.len() ==> match #[trigger] results@[i] {
                    Ok(event) => Event::decoded(frames@[i]@) == Ok::<Event, DecodeErrorView>(event),
                    Err(error) => Event::decoded(frames@[i]@) == Err::<Event, DecodeErrorView>(
                        error@,
                    ),
                },
    {
        let mut results: Vec<Result<Event, DecodeError<'a>>> = Vec::new();
        let mut done: usize = 0;
        while done < frames.len()
            invariant
                done <= frames@.len(),
                results@.len() == done,
                forall|i: int|
                    0 <= i < done ==> match #[trigger] results@[i] {
                        Ok(event) => Event::decoded(frames@[i]@) == Ok::<Event, DecodeErrorView>(
                            event,
                        ),
                        Err(error) => Event::decoded(frames@[i]@) == Err::<Event, DecodeErrorView>(
                            error@,
                        ),
                    },
            decreases frames@.len() - done,
        {
            let result = Event::decode(frames[done].as_slice());
            results.push(result);
            done += 1;
        }
        results
    }
}

impl<'a> TryFrom<&'a [u8]> for Event {
    type Error = DecodeError<'a>;

    /// Decodes one inbound frame, as [`Event::decode`] does.
    fn try_from(bytes: &'a [u8]) -> (result: Result<Event, DecodeError<'a>>)
        ensures
            result == Event::decode(bytes),
    {
        Event::decode(bytes)
    }
}

impl<'a> vstd::std_specs::convert::TryFromSpecImpl<&'a [u8]> for Event {
    open spec fn obeys_try_from_spec() -> bool {
        true
    }

    open spec fn try_from_spec(bytes: &'a [u8]) -> Result<Event, DecodeError<'a>> {
        Event::decode(bytes)
    }
}

} // verus!

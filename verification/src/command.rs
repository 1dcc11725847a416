//! Outbound intents and the frames that carry them to the device.

use crate::model::{Button, ButtonLedState, Knob, KnobState};
use vstd::prelude::*;

verus! {

/// First byte of a note message: button and knob presses inbound, button
/// LEDs outbound.
pub const NOTE_ON: u8 = 0x90;

/// First byte of a controller message: knob turns inbound, knob LED rings
/// and the operation mode outbound.
pub const CONTROL_CHANGE: u8 = 0xb0;

/// First byte of a fader message.
pub const FADER: u8 = 0xe8;

/// Controller number that selects the operation mode.
pub const MODE_SELECT: u8 = 0x7f;

/// How the device interprets what it is sent.
#[derive(Copy, Clone, Debug, PartialEq, Eq, Structural)]
pub enum OperationMode {
    /// The mode the device is in when it is switched on.
    Standard,
    /// The mode in which every LED can be addressed. Every controller
    /// selects it at start.
    MackieControl,
}

impl OperationMode {
    /// The data byte that selects this mode.
    pub open spec fn spec_to_midi(&self) -> u8 {
        match self {
            OperationMode::Standard => 0,
            OperationMode::MackieControl => 1,
        }
    }

    #[verifier::when_used_as_spec(spec_to_midi)]
    pub fn to_midi(&self) -> (code: u8)
        ensures
            code == self.spec_to_midi(),
    {
        match self {
            OperationMode::Standard => 0,
            OperationMode::MackieControl => 1,
        }
    }
}

/// Something the software asks the device to show or to do. Each command
/// travels as exactly one frame.
#[allow(inconsistent_fields)]
#[derive(Copy, Clone, Debug, PartialEq, Eq, Structural)]
pub enum Command {
    SetButtonLedState { button: Button, state: ButtonLedState },
    SetKnobLedState { knob: Knob, state: KnobState },
    SetOperationMode { mode: OperationMode },
}

impl Command {
    /// Whether the command can be sent as it is: a ring value it carries is
    /// one that the ring can show. Every command that executable code holds
    /// is.
    pub open spec fn is_valid(&self) -> bool {
        match self {
            Command::SetKnobLedState { knob, state } => state.value.is_valid(),
            _ => true,
        }
    }

    /// The three bytes that carry this command.
    ///
    /// A button LED travels as a note message with the button's note and
    /// the state's data byte. A knob ring travels as a controller message
    /// addressed to the ring, whose data byte is the ring value plus the
    /// offset of the style. The operation mode travels as a controller
    /// message on the mode-select controller.
    pub open spec fn frame(&self) -> Seq<u8> {
        match self {
            Command::SetButtonLedState { button, state } => seq![
                NOTE_ON,
                button.to_midi(),
                state.to_midi(),
            ],
            Command::SetKnobLedState { knob, state } => seq![
                CONTROL_CHANGE,
                knob.led_code(),
                (state.value@ + state.style.offset()) as u8,
            ],
            Command::SetOperationMode { mode } => seq![CONTROL_CHANGE, MODE_SELECT, mode.to_midi()],
        }
    }

    /// The frames that carry `commands`: one for each command, in the same
    /// order.
    pub open spec fn frames(commands: Seq<Command>) -> Seq<Seq<u8>> {
        Seq::new(commands.len(), |i: int| commands[i].frame())
    }

    /// Frames keep the order of their commands: what carries a run of
    /// commands followed by another is what carries the first run, followed
    /// by what carries the second. No frame is added, dropped or moved.
    pub proof fn lemma_frames_keep_order(first: Seq<Command>, then: Seq<Command>)
        ensures
            Command::frames(first + then) == Command::frames(first) + Command::frames(then),
            Command::frames(first).len() == first.len(),
            forall|i: int| 0 <= i < first.len() ==> Command::frames(first)[i] == first[i].frame(),
    {
        assert(Command::frames(first + then) =~= Command::frames(first) + Command::frames(then));
    }

    /// Three commands that one controller's record took one after another
    /// leave as three frames in that order, behind the frames of everything
    /// the record held before them. Each clone of a controller keeps a
    /// record of its own: the order among the commands of several clones is
    /// the order in which the queue took them, which is the queue's to keep.
    pub proof fn lemma_frames_follow_acceptance(
        accepted: Seq<Command>,
        a: Command,
        b: Command,
        c: Command,
    )
        ensures
            Command::frames(accepted.push(a).push(b).push(c)) == Command::frames(accepted).push(
                a.frame(),
            ).push(b.frame()).push(c.frame()),
    {
        assert(Command::frames(accepted.push(a).push(b).push(c)) =~= Command::frames(
            accepted,
        ).push(a.frame()).push(b.frame()).push(c.frame()));
    }

    /// Encodes the command. Never fails.
    pub fn as_bytes(&self) -> (bytes: [u8; 3])
        ensures
            bytes@ == self.frame(),
            self.is_valid(),
    {
        match self {
            Command::SetButtonLedState { button, state } => {
                let bytes = [NOTE_ON, button.to_midi(), state.to_midi()];
                assert(bytes@ =~= self.frame());
                bytes
            },
            Command::SetKnobLedState { knob, state } => {
                let value = state.value.get();
                let bytes = [CONTROL_CHANGE, knob.led_code(), value + state.style.offset()];
                assert(bytes@ =~= self.frame());
                bytes
            },
            Command::SetOperationMode { mode } => {
                let bytes = [CONTROL_CHANGE, MODE_SELECT, mode.to_midi()];
                assert(bytes@ =~= self.frame());
                bytes
            },
        }
    }
}

} // verus!

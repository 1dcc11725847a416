//! The sending side of the output queue.
//!
//! One writer owns the device and takes commands from an unbounded queue,
//! one at a time and in the order in which they arrived. A [`Controller`]
//! is the producers' end of that queue: it records each intent in its
//! shadow state and hands the command over without waiting for the write.

use crate::command::{Command, OperationMode};
use crate::model::{Button, ButtonLedState, FaderValue, Knob, KnobLedStyle, KnobState, KnobValue};
use crate::state::{ControllerState, StateView};
use futures::channel::mpsc::{unbounded, TrySendError, UnboundedReceiver, UnboundedSender};
use vstd::prelude::*;

verus! {

/// The sending end of an unbounded queue, opaque to the verifier.
#[verifier::external_type_specification]
#[verifier::external_body]
#[verifier::reject_recursive_types(T)]
pub struct ExUnboundedSender<T>(UnboundedSender<T>);

/// The receiving end of an unbounded queue, opaque to the verifier.
#[verifier::external_type_specification]
#[verifier::external_body]
#[verifier::reject_recursive_types(T)]
pub struct ExUnboundedReceiver<T>(UnboundedReceiver<T>);

/// The error of a send that did not happen, opaque to the verifier. It
/// holds the message that was not sent.
#[verifier::external_type_specification]
#[verifier::external_body]
#[verifier::reject_recursive_types(T)]
pub struct ExTrySendError<T>(TrySendError<T>);

/// `unbounded` makes a queue without a bound and returns its two ends. Both
/// are opaque here, so nothing is claimed of them.
pub assume_specification<T>[ unbounded::<T> ]() -> (ends: (
    UnboundedSender<T>,
    UnboundedReceiver<T>,
))
;

/// `UnboundedSender::unbounded_send` puts a message at the back of the queue
/// and returns at once, or returns the message in an error if the queue no
/// longer takes any. Which of the two happens depends on what the receiving
/// side has done, so nothing is claimed of the result. The call panics only
/// if the count of queued messages would overflow.
pub assume_specification<T>[ UnboundedSender::<T>::unbounded_send ](
    sender: &UnboundedSender<T>,
    msg: T,
) -> (result: Result<(), TrySendError<T>>)
;

/// `UnboundedSender::clone` gives another sending end of the same queue.
/// Senders are opaque here, so nothing is claimed of the result.
pub assume_specification<T>[ <UnboundedSender<T> as Clone>::clone ](
    sender: &UnboundedSender<T>,
) -> (copy: UnboundedSender<T>)
;

/// Why a command was not queued.
#[derive(Copy, Clone, Debug, PartialEq, Eq, Structural)]
pub enum EnqueueError {
    /// The writer has stopped for good: the queue takes no more commands.
    Closed,
}

impl From<TrySendError<Command>> for EnqueueError {
    /// An unbounded queue refuses a command for one reason only.
    fn from(error: TrySendError<Command>) -> (mapped: EnqueueError) {
        EnqueueError::Closed
    }
}

impl vstd::std_specs::convert::FromSpecImpl<TrySendError<Command>> for EnqueueError {
    open spec fn obeys_from_spec() -> bool {
        true
    }

    open spec fn from_spec(error: TrySendError<Command>) -> EnqueueError {
        EnqueueError::Closed
    }
}

/// What a producer is told of a send: the command was queued if and only if
/// the queue took it, and a command that the queue refused was refused
/// because the queue is closed.
pub fn send_outcome(sent: Result<(), TrySendError<Command>>) -> (outcome: Result<
    (),
    EnqueueError,
>)
    ensures
        outcome is Ok <==> sent is Ok,
        outcome is Err ==> outcome == Err::<(), EnqueueError>(EnqueueError::Closed),
{
    match sent {
        Ok(()) => Ok(()),
        Err(error) => Err(EnqueueError::from(error)),
    }
}

/// What the writer has just seen.
#[derive(Copy, Clone, Debug, PartialEq, Eq, Structural)]
pub enum WriterEvent {
    /// The writer has started.
    Started,
    /// The queue handed out its next command.
    Received(Command),
    /// The queue is closed and holds nothing more.
    Drained,
    /// The device took the frame.
    Written,
    /// The device did not take the frame.
    WriteFailed,
}

/// What the writer does next.
#[derive(Copy, Clone, Debug, PartialEq, Eq)]
pub enum WriterAction {
    /// Wait for the next command of the queue.
    Receive,
    /// Write this frame to the device, once.
    Write([u8; 3]),
    /// End: nothing more will come.
    Stop,
}

/// The writer's rule. It writes one frame for each command it receives, the
/// frame of that command, before it asks for the next command, so frames
/// leave in the order in which the queue hands out their commands, one at a
/// time. A write that failed is not tried again and stops nothing: the
/// writer goes on with the next command. It ends when the queue does.
pub fn writer_step(event: WriterEvent) -> (action: WriterAction)
    ensures
        match event {
            WriterEvent::Received(command) => action matches WriterAction::Write(frame)
                && frame@ == command.frame(),
            WriterEvent::Drained => action is Stop,
            WriterEvent::Started | WriterEvent::Written | WriterEvent::WriteFailed => action
                is Receive,
        },
{
    match event {
        WriterEvent::Received(command) => WriterAction::Write(command.as_bytes()),
        WriterEvent::Drained => WriterAction::Stop,
        WriterEvent::Started | WriterEvent::Written | WriterEvent::WriteFailed => {
            WriterAction::Receive
        },
    }
}

/// The producers' end of the output queue, with the shadow state.
pub struct Controller {
    sender: UnboundedSender<Command>,
    state: ControllerState,
    accepted: Ghost<Seq<Command>>,
}

impl Controller {
    /// The shadow state.
    pub closed spec fn spec_state(&self) -> &ControllerState {
        &self.state
    }

    /// The commands that the queue has taken through this controller, in
    /// the order in which it took them.
    pub closed spec fn accepted(&self) -> Seq<Command> {
        self.accepted@
    }

    /// The commands that put a device into the state every controller
    /// starts from: the resync of the baseline, then the switch to the
    /// Mackie Control operation mode.
    pub open spec fn reset_sequence() -> Seq<Command> {
        StateView::baseline().resync().push(
            Command::SetOperationMode { mode: OperationMode::MackieControl },
        )
    }

    /// A controller on a new queue, and the receiving end of that queue for
    /// the writer. Its shadow state is the default state. Before it
    /// returns, it queues a full reset, so that the device starts from that
    /// state whatever it showed before: [`Controller::reset_sequence`].
    /// Queuing the reset does not change the shadow state. It fails if the
    /// queue refuses one of these commands.
    pub fn new() -> (result: Result<(Controller, UnboundedReceiver<Command>), EnqueueError>)
        ensures
            match result {
                Ok((controller, receiver)) => {
                    &&& controller.state()@ == StateView::baseline()
                    &&& controller.accepted() == Controller::reset_sequence()
                },
                Err(error) => error == EnqueueError::Closed,
            },
    {
        let (sender, receiver) = unbounded::<Command>();
        let state = ControllerState::default();
        let commands = state.to_commands();
        let mut controller = Controller { sender, state, accepted: Ghost(Seq::empty()) };
        let mut queued: usize = 0;
        while queued < commands.len()
            invariant
                queued <= commands.len(),
                commands@ == StateView::baseline().resync(),
                controller.state()@ == StateView::baseline(),
                controller.accepted() == commands@.take(queued as int),
            decreases commands.len() - queued,
        {
            match controller.enqueue(commands[queued]) {
                Ok(()) => {},
                Err(error) => {
                    return Err(error);
                },
            }
            assert(commands@.take(queued + 1) =~= commands@.take(queued as int).push(
                commands@[queued as int],
            ));
            queued += 1;
        }
        assert(commands@.take(queued as int) =~= commands@);
        match controller.enqueue(Command::SetOperationMode { mode: OperationMode::MackieControl }) {
            Ok(()) => Ok((controller, receiver)),
            Err(error) => Err(error),
        }
    }

    /// Hands `command` to the queue and returns at once. The shadow state
    /// is left alone, whether the queue takes the command or not.
    pub fn enqueue(&mut self, command: Command) -> (result: Result<(), EnqueueError>)
        ensures
            final(self).state() == old(self).state(),
            match result {
                Ok(()) => final(self).accepted() == old(self).accepted().push(command),
                Err(error) => error == EnqueueError::Closed && final(self).accepted() == old(
                    self,
                ).accepted(),
            },
    {
        let outcome = send_outcome(self.sender.unbounded_send(command));
        if outcome.is_ok() {
            proof {
                self.accepted@ = self.accepted@.push(command);
            }
        }
        outcome
    }

    /// Sets the LED of `button`: records the intent in the shadow state,
    /// then queues the command. The record is made even if the queue
    /// refuses the command.
    pub fn set_button(&mut self, button: Button, state: ButtonLedState) -> (result: Result<
        (),
        EnqueueError,
    >)
        ensures
            final(self).state()@ == old(self).state()@.with_button(button, state),
            match result {
                Ok(()) => final(self).accepted() == old(self).accepted().push(
                    Command::SetButtonLedState { button, state },
                ),
                Err(error) => error == EnqueueError::Closed && final(self).accepted() == old(
                    self,
                ).accepted(),
            },
    {
        *self.state.button_mut(button) = state;
        self.enqueue(Command::SetButtonLedState { button, state })
    }

    /// Toggles the LED of `button`: records the intent in the shadow state,
    /// then queues the command. The record is made even if the queue
    /// refuses the command.
    pub fn negate_button(&mut self, button: Button) -> (result: Result<(), EnqueueError>)
        ensures
            final(self).state()@ == old(self).state()@.with_button(
                button,
                old(self).state()@.button(button).negated(),
            ),
            match result {
                Ok(()) => final(self).accepted() == old(self).accepted().push(
                    Command::SetButtonLedState {
                        button,
                        state: old(self).state()@.button(button).negated(),
                    },
                ),
                Err(error) => error == EnqueueError::Closed && final(self).accepted() == old(
                    self,
                ).accepted(),
            },
    {
        let state = self.state.button(button).negated();
        self.set_button(button, state)
    }

    /// Sets the LED ring of `knob`: records the intent in the shadow state,
    /// then queues the command. The record is made even if the queue
    /// refuses the command.
    pub fn set_knob(&mut self, knob: Knob, style: KnobLedStyle, value: KnobValue) -> (result:
        Result<(), EnqueueError>)
        ensures
            final(self).state()@ == old(self).state()@.with_knob(knob, KnobState { style, value }),
            match result {
                Ok(()) => final(self).accepted() == old(self).accepted().push(
                    Command::SetKnobLedState { knob, state: KnobState { style, value } },
                ),
                Err(error) => error == EnqueueError::Closed && final(self).accepted() == old(
                    self,
                ).accepted(),
            },
    {
        let state = {
            let state = self.state.knob_mut(knob);
            state.style = style;
            state.value = value;
            *state
        };
        self.enqueue(Command::SetKnobLedState { knob, state })
    }

    /// Selects the operation mode: records the intent in the shadow state,
    /// then queues the command. The record is made even if the queue
    /// refuses the command.
    pub fn set_mode(&mut self, mode: OperationMode) -> (result: Result<(), EnqueueError>)
        ensures
            final(self).state()@ == old(self).state()@.with_mode(mode),
            match result {
                Ok(()) => final(self).accepted() == old(self).accepted().push(
                    Command::SetOperationMode { mode },
                ),
                Err(error) => error == EnqueueError::Closed && final(self).accepted() == old(
                    self,
                ).accepted(),
            },
    {
        self.state.apply(Command::SetOperationMode { mode });
        self.enqueue(Command::SetOperationMode { mode })
    }

    /// Records where the fader was seen. The fader is observed, not
    /// commanded: nothing is queued.
    pub fn set_fader(&mut self, value: FaderValue)
        ensures
            final(self).state()@ == old(self).state()@.with_fader(value),
            final(self).accepted() == old(self).accepted(),
    {
        self.state.fader_mut().0 = value.0;
    }

    /// The shadow state.
    #[verifier::when_used_as_spec(spec_state)]
    pub fn state(&self) -> (state: &ControllerState)
        ensures
            state == self.spec_state(),
    {
        &self.state
    }
}

impl Clone for Controller {
    /// Another producer on the same queue. It starts with a copy of the
    /// shadow state and of the record of accepted commands, and keeps its
    /// own from then on.
    fn clone(&self) -> (copy: Controller)
        ensures
            copy.state() == self.state(),
            copy.accepted() == self.accepted(),
    {
        Controller {
            sender: self.sender.clone(),
            state: self.state.clone(),
            accepted: self.accepted,
        }
    }
}

} // verus!

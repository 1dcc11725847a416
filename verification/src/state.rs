//! The shadow state: what the software last asked the device to show.

use crate::command::{Command, OperationMode};
use crate::model::{Button, ButtonLedState, FaderValue, Knob, KnobLedStyle, KnobState, KnobValue};
use vstd::prelude::*;

verus! {

/// The intended output state of every control, and the last fader position
/// seen. It records what was requested, not what the device confirmed: the
/// protocol has no acknowledgment.
#[derive(Debug, PartialEq, Eq)]
pub struct ControllerState {
    knobs: [KnobState; 8],
    buttons: [ButtonLedState; 18],
    fader: FaderValue,
    mode: OperationMode,
}

/// A [`ControllerState`] as plain data: one entry per knob and per button,
/// each at the dense index of its control.
pub struct StateView {
    pub knobs: Seq<KnobState>,
    pub buttons: Seq<ButtonLedState>,
    pub fader: FaderValue,
    pub mode: OperationMode,
}

impl StateView {
    /// There is one entry for each knob and one for each button.
    pub open spec fn has_shape(self) -> bool {
        &&& self.knobs.len() == Knob::COUNT
        &&& self.buttons.len() == Button::COUNT
    }

    /// What the ring of `knob` is meant to show.
    pub open spec fn knob(self, knob: Knob) -> KnobState {
        self.knobs[knob.to_index() as int]
    }

    /// What the LED of `button` is meant to show.
    pub open spec fn button(self, button: Button) -> ButtonLedState {
        self.buttons[button.to_index() as int]
    }

    /// The state with the ring of `knob` replaced.
    pub open spec fn with_knob(self, knob: Knob, state: KnobState) -> StateView {
        StateView { knobs: self.knobs.update(knob.to_index() as int, state), ..self }
    }

    /// The state with the LED of `button` replaced.
    pub open spec fn with_button(self, button: Button, state: ButtonLedState) -> StateView {
        StateView { buttons: self.buttons.update(button.to_index() as int, state), ..self }
    }

    /// The state with the fader position replaced.
    pub open spec fn with_fader(self, fader: FaderValue) -> StateView {
        StateView { fader, ..self }
    }

    /// The state with the operation mode replaced.
    pub open spec fn with_mode(self, mode: OperationMode) -> StateView {
        StateView { mode, ..self }
    }

    /// The state after `command` was accepted: the slot that the command
    /// names holds what the command carries, and nothing else has changed.
    pub open spec fn apply(self, command: Command) -> StateView {
        match command {
            Command::SetButtonLedState { button, state } => self.with_button(button, state),
            Command::SetKnobLedState { knob, state } => self.with_knob(knob, state),
            Command::SetOperationMode { mode } => self.with_mode(mode),
        }
    }

    /// The state after each of `commands` was accepted, first to last.
    pub open spec fn apply_all(self, commands: Seq<Command>) -> StateView
        decreases commands.len(),
    {
        if commands.len() == 0 {
            self
        } else {
            self.apply_all(commands.drop_last()).apply(commands.last())
        }
    }

    /// The commands that bring a device to this state: one for each knob,
    /// then one for each button, each group in the order of the dense
    /// index.
    pub open spec fn resync(self) -> Seq<Command> {
        Seq::new(
            (Knob::COUNT + Button::COUNT) as nat,
            |i: int|
                if i < Knob::COUNT {
                    Command::SetKnobLedState {
                        knob: Knob::from_index(i as usize).unwrap(),
                        state: self.knobs[i],
                    }
                } else {
                    Command::SetButtonLedState {
                        button: Button::from_index((i - Knob::COUNT) as usize).unwrap(),
                        state: self.buttons[i - Knob::COUNT],
                    }
                },
        )
    }

    /// The state whose LEDs are those of `target` and whose fader position
    /// and operation mode are those of `self`.
    pub open spec fn with_leds_of(self, target: StateView) -> StateView {
        StateView { knobs: target.knobs, buttons: target.buttons, ..self }
    }

    /// The state at start: every button off, every ring in the single-LED
    /// style at the lowest value, the fader at the bottom, and the operation
    /// mode that every controller selects at start, Mackie Control.
    pub open spec fn baseline() -> StateView {
        StateView {
            knobs: Seq::new(
                Knob::COUNT as nat,
                |i: int| KnobState { style: KnobLedStyle::Single, value: KnobValue::lowest() },
            ),
            buttons: Seq::new(Button::COUNT as nat, |i: int| ButtonLedState::Off),
            fader: FaderValue(FaderValue::MIN),
            mode: OperationMode::MackieControl,
        }
    }
}

impl View for ControllerState {
    type V = StateView;

    closed spec fn view(&self) -> StateView {
        StateView { knobs: self.knobs@, buttons: self.buttons@, fader: self.fader, mode: self.mode }
    }
}

impl ControllerState {
    /// Every state has one entry for each knob and one for each button.
    pub proof fn lemma_has_shape(state: ControllerState)
        ensures
            state@.has_shape(),
    {
    }

    /// A state is its view and nothing else.
    pub proof fn lemma_view_is_injective(a: ControllerState, b: ControllerState)
        ensures
            a@ == b@ <==> a == b,
    {
        if a@ == b@ {
            assert(a.knobs =~= b.knobs);
            assert(a.buttons =~= b.buttons);
        }
    }

    /// What the ring of `knob` is meant to show.
    pub fn knob(&self, knob: Knob) -> (state: &KnobState)
        ensures
            *state == self@.knob(knob),
            self@.has_shape(),
    {
        &self.knobs[knob.to_index()]
    }

    /// What the LED of `button` is meant to show.
    pub fn button(&self, button: Button) -> (state: &ButtonLedState)
        ensures
            *state == self@.button(button),
            self@.has_shape(),
    {
        &self.buttons[button.to_index()]
    }

    /// The last fader position recorded.
    pub fn fader(&self) -> (value: &FaderValue)
        ensures
            *value == self@.fader,
    {
        &self.fader
    }

    /// The ring of `knob`, to be changed in place.
    pub fn knob_mut(&mut self, knob: Knob) -> (state: &mut KnobState)
        ensures
            *state == old(self)@.knob(knob),
            final(self)@ == old(self)@.with_knob(knob, *final(state)),
    {
        &mut self.knobs[knob.to_index()]
    }

    /// The LED of `button`, to be changed in place.
    pub fn button_mut(&mut self, button: Button) -> (state: &mut ButtonLedState)
        ensures
            *state == old(self)@.button(button),
            final(self)@ == old(self)@.with_button(button, *final(state)),
    {
        &mut self.buttons[button.to_index()]
    }

    /// The recorded fader position, to be changed in place.
    pub fn fader_mut(&mut self) -> (value: &mut FaderValue)
        ensures
            *value == old(self)@.fader,
            final(self)@ == old(self)@.with_fader(*final(value)),
    {
        &mut self.fader
    }

    /// Records an accepted command: the slot that it names takes what it
    /// carries.
    pub fn apply(&mut self, command: Command)
        ensures
            final(self)@ == old(self)@.apply(command),
    {
        match command {
            Command::SetButtonLedState { button, state } => {
                self.buttons[button.to_index()] = state;
            },
            Command::SetKnobLedState { knob, state } => {
                self.knobs[knob.to_index()] = state;
            },
            Command::SetOperationMode { mode } => {
                self.mode = mode;
            },
        }
    }

    /// Records each of `commands`, first to last.
    pub fn apply_all(&mut self, commands: &[Command])
        ensures
            final(self)@ == old(self)@.apply_all(commands@),
    {
        let mut done: usize = 0;
        assert(commands@.take(0) =~= Seq::<Command>::empty());
        while done < commands.len()
            invariant
                done <= commands.len(),
                self@ == old(self)@.apply_all(commands@.take(done as int)),
            decreases commands.len() - done,
        {
            assert(commands@.take(done + 1).drop_last() =~= commands@.take(done as int));
            self.apply(commands[done]);
            done += 1;
        }
        assert(commands@.take(done as int) =~= commands@);
    }

    /// The full output state as commands, fit to bring a device that was
    /// just connected or reset to this state: one command for each knob,
    /// then one for each button, each group in the order of the dense
    /// index.
    pub fn to_commands(&self) -> (commands: Vec<Command>)
        ensures
            commands@ == self@.resync(),
    {
        let mut commands: Vec<Command> = Vec::new();
        let mut i: usize = 0;
        while i < Knob::COUNT
            invariant
                i <= Knob::COUNT,
                commands@.len() == i,
                forall|j: int| 0 <= j < i ==> commands@[j] == self@.resync()[j],
            decreases Knob::COUNT - i,
        {
            match Knob::from_index(i) {
                Some(knob) => {
                    commands.push(Command::SetKnobLedState { knob, state: self.knobs[i] });
                },
                None => {},
            }
            i += 1;
        }
        let mut i: usize = 0;
        while i < Button::COUNT
            invariant
                i <= Button::COUNT,
                commands@.len() == Knob::COUNT + i,
                forall|j: int| 0 <= j < Knob::COUNT + i ==> commands@[j] == self@.resync()[j],
            decreases Button::COUNT - i,
        {
            match Button::from_index(i) {
                Some(button) => {
                    commands.push(Command::SetButtonLedState { button, state: self.buttons[i] });
                },
                None => {},
            }
            i += 1;
        }
        assert(commands@ =~= self@.resync());
        commands
    }

    /// Replaying the resync of one state over another leaves the LEDs of
    /// the first: every ring and every button LED takes the value the
    /// commands carry. The fader position and the operation mode, which no
    /// command of a resync names, stay as they were.
    pub proof fn lemma_resync_converges(prior: StateView, target: StateView)
        requires
            prior.has_shape(),
            target.has_shape(),
        ensures
            prior.apply_all(target.resync()) == prior.with_leds_of(target),
    {
        let all = target.resync();
        Self::lemma_resync_prefix(prior, target, all.len());
        assert(all.take(all.len() as int) =~= all);
        assert(prior.apply_all(all).knobs =~= target.knobs);
        assert(prior.apply_all(all).buttons =~= target.buttons);
    }

    /// Replaying the resync of the baseline over any two states that agree
    /// on the fader position and the operation mode leaves one and the same
    /// state; over the baseline itself it changes nothing.
    pub proof fn lemma_reset_is_idempotent(a: StateView, b: StateView)
        requires
            a.has_shape(),
            b.has_shape(),
            a.fader == b.fader,
            a.mode == b.mode,
        ensures
            a.apply_all(StateView::baseline().resync()) == b.apply_all(
                StateView::baseline().resync(),
            ),
            StateView::baseline().apply_all(StateView::baseline().resync())
                == StateView::baseline(),
    {
        Self::lemma_resync_converges(a, StateView::baseline());
        Self::lemma_resync_converges(b, StateView::baseline());
        Self::lemma_resync_converges(StateView::baseline(), StateView::baseline());
    }

    /// After the first `n` commands of a resync of `target`, the first `n`
    /// slots, knobs before buttons, hold what `target` holds and the others
    /// what `prior` held.
    proof fn lemma_resync_prefix(prior: StateView, target: StateView, n: nat)
        requires
            prior.has_shape(),
            target.has_shape(),
            n <= Knob::COUNT + Button::COUNT,
        ensures
            prior.apply_all(target.resync().take(n as int)) == (StateView {
                knobs: Seq::new(
                    Knob::COUNT as nat,
                    |i: int| if i < n { target.knobs[i] } else { prior.knobs[i] },
                ),
                buttons: Seq::new(
                    Button::COUNT as nat,
                    |i: int| if i + Knob::COUNT < n { target.buttons[i] } else { prior.buttons[i] },
                ),
                fader: prior.fader,
                mode: prior.mode,
            }),
        decreases n,
    {
        let all = target.resync();
        let now = prior.apply_all(all.take(n as int));
        let knobs = Seq::new(
            Knob::COUNT as nat,
            |i: int| if i < n { target.knobs[i] } else { prior.knobs[i] },
        );
        let buttons = Seq::new(
            Button::COUNT as nat,
            |i: int| if i + Knob::COUNT < n { target.buttons[i] } else { prior.buttons[i] },
        );
        if n > 0 {
            Self::lemma_resync_prefix(prior, target, (n - 1) as nat);
            assert(all.take(n as int).drop_last() =~= all.take(n - 1));
            if n - 1 < Knob::COUNT {
                let knob = Knob::from_index((n - 1) as usize).unwrap();
                Knob::lemma_index_inverse(knob, (n - 1) as usize);
            } else {
                let button = Button::from_index((n - 1 - Knob::COUNT) as usize).unwrap();
                Button::lemma_index_inverse(button, (n - 1 - Knob::COUNT) as usize);
            }
        }
        assert(now.knobs =~= knobs);
        assert(now.buttons =~= buttons);
    }

    /// The operation mode last asked for.
    pub fn mode(&self) -> (mode: &OperationMode)
        ensures
            *mode == self@.mode,
    {
        &self.mode
    }
}

impl Clone for ControllerState {
    fn clone(&self) -> (copy: ControllerState)
        ensures
            copy == *self,
    {
        ControllerState {
            knobs: self.knobs,
            buttons: self.buttons,
            fader: self.fader,
            mode: self.mode,
        }
    }
}

impl Default for ControllerState {
    fn default() -> (state: Self)
        ensures
            state@ == StateView::baseline(),
    {
        let state = ControllerState {
            knobs: [KnobState::default(); 8],
            buttons: [ButtonLedState::Off; 18],
            fader: FaderValue(FaderValue::MIN),
            mode: OperationMode::MackieControl,
        };
        assert(state@.knobs =~= StateView::baseline().knobs);
        assert(state@.buttons =~= StateView::baseline().buttons);
        state
    }
}

} // verus!

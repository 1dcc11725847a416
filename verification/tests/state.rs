use xtouchmini::{
    Button, ButtonLedState, Command, ControllerState, FaderValue, Knob, KnobLedStyle, KnobState,
    KnobValue, OperationMode,
};

fn ring(style: KnobLedStyle, value: u8) -> KnobState {
    KnobState { style, value: KnobValue::new(value) }
}

fn busy_state() -> ControllerState {
    let mut state = ControllerState::default();
    *state.knob_mut(Knob::Knob1) = ring(KnobLedStyle::Fan, 3);
    *state.knob_mut(Knob::Knob8) = ring(KnobLedStyle::Trim, 11);
    *state.button_mut(Button::Button1) = ButtonLedState::On;
    *state.button_mut(Button::Button9) = ButtonLedState::Blink;
    *state.button_mut(Button::LayerB) = ButtonLedState::On;
    state
}

#[test]
fn default_state_is_all_off() {
    let state = ControllerState::default();
    for index in 0..Knob::COUNT {
        let knob = Knob::from_index(index).unwrap();
        assert_eq!(*state.knob(knob), ring(KnobLedStyle::Single, 0));
    }
    for index in 0..Button::COUNT {
        let button = Button::from_index(index).unwrap();
        assert_eq!(*state.button(button), ButtonLedState::Off);
    }
    assert_eq!(*state.fader(), FaderValue(0));
    assert_eq!(*state.mode(), OperationMode::MackieControl);
}

#[test]
fn knob_mut_changes_that_knob_only() {
    let mut state = ControllerState::default();
    *state.knob_mut(Knob::Knob3) = ring(KnobLedStyle::Spread, 9);
    assert_eq!(*state.knob(Knob::Knob3), ring(KnobLedStyle::Spread, 9));
    let mut expected = ControllerState::default();
    expected.apply(Command::SetKnobLedState {
        knob: Knob::Knob3,
        state: ring(KnobLedStyle::Spread, 9),
    });
    assert_eq!(state, expected);
    state.knob_mut(Knob::Knob3).style = KnobLedStyle::Pan;
    assert_eq!(*state.knob(Knob::Knob3), ring(KnobLedStyle::Pan, 9));
    assert_eq!(*state.knob(Knob::Knob2), ring(KnobLedStyle::Single, 0));
    assert_eq!(*state.knob(Knob::Knob4), ring(KnobLedStyle::Single, 0));
}

#[test]
fn button_mut_changes_that_button_only() {
    let mut state = ControllerState::default();
    *state.button_mut(Button::Button12) = ButtonLedState::Blink;
    for index in 0..Button::COUNT {
        let button = Button::from_index(index).unwrap();
        let expected = if button == Button::Button12 {
            ButtonLedState::Blink
        } else {
            ButtonLedState::Off
        };
        assert_eq!(*state.button(button), expected);
    }
}

#[test]
fn fader_mut_changes_the_fader_only() {
    let mut state = busy_state();
    *state.fader_mut() = FaderValue(77);
    assert_eq!(*state.fader(), FaderValue(77));
    let mut expected = busy_state();
    expected.fader_mut().0 = 77;
    assert_eq!(state, expected);
    assert_ne!(state, busy_state());
}

#[test]
fn apply_updates_the_slot_the_command_names() {
    let mut state = ControllerState::default();
    state.apply(Command::SetButtonLedState {
        button: Button::Button5,
        state: ButtonLedState::On,
    });
    assert_eq!(*state.button(Button::Button5), ButtonLedState::On);
    state.apply(Command::SetKnobLedState { knob: Knob::Knob6, state: ring(KnobLedStyle::Fan, 4) });
    assert_eq!(*state.knob(Knob::Knob6), ring(KnobLedStyle::Fan, 4));
    state.apply(Command::SetOperationMode { mode: OperationMode::Standard });
    assert_eq!(*state.mode(), OperationMode::Standard);
    state.apply(Command::SetOperationMode { mode: OperationMode::MackieControl });
    assert_eq!(*state.mode(), OperationMode::MackieControl);
    assert_eq!(*state.button(Button::Button5), ButtonLedState::On);
    assert_eq!(*state.fader(), FaderValue(0));
}

#[test]
fn later_command_for_a_slot_wins() {
    let mut state = ControllerState::default();
    state.apply_all(&[
        Command::SetButtonLedState { button: Button::Button5, state: ButtonLedState::On },
        Command::SetButtonLedState { button: Button::Button6, state: ButtonLedState::On },
        Command::SetButtonLedState { button: Button::Button5, state: ButtonLedState::Blink },
    ]);
    assert_eq!(*state.button(Button::Button5), ButtonLedState::Blink);
    assert_eq!(*state.button(Button::Button6), ButtonLedState::On);
}

#[test]
fn apply_all_of_nothing_changes_nothing() {
    let mut state = busy_state();
    state.apply_all(&[]);
    assert_eq!(state, busy_state());
}

#[test]
fn resync_is_knobs_then_buttons_by_index() {
    let state = busy_state();
    let commands = state.to_commands();
    assert_eq!(commands.len(), 26);
    for index in 0..Knob::COUNT {
        let knob = Knob::from_index(index).unwrap();
        assert_eq!(commands[index], Command::SetKnobLedState { knob, state: *state.knob(knob) });
    }
    for index in 0..Button::COUNT {
        let button = Button::from_index(index).unwrap();
        assert_eq!(
            commands[Knob::COUNT + index],
            Command::SetButtonLedState { button, state: *state.button(button) }
        );
    }
    assert_eq!(
        commands[0],
        Command::SetKnobLedState { knob: Knob::Knob1, state: ring(KnobLedStyle::Fan, 3) }
    );
    assert_eq!(
        commands[16],
        Command::SetButtonLedState { button: Button::Button9, state: ButtonLedState::Blink }
    );
    assert_eq!(
        commands[25],
        Command::SetButtonLedState { button: Button::LayerB, state: ButtonLedState::On }
    );
}

#[test]
fn default_resync_turns_everything_off() {
    let commands = ControllerState::default().to_commands();
    assert_eq!(commands.len(), 26);
    assert_eq!(
        commands[7],
        Command::SetKnobLedState { knob: Knob::Knob8, state: ring(KnobLedStyle::Single, 0) }
    );
    assert_eq!(
        commands[8],
        Command::SetButtonLedState { button: Button::Button1, state: ButtonLedState::Off }
    );
    assert_eq!(commands[7].as_bytes(), [0xb0, 0x37, 0x00]);
    assert_eq!(commands[8].as_bytes(), [0x90, 0x59, 0x00]);
}

#[test]
fn default_resync_over_default_changes_nothing() {
    let mut state = ControllerState::default();
    state.apply_all(&ControllerState::default().to_commands());
    assert_eq!(state, ControllerState::default());
}

#[test]
fn default_resync_brings_a_different_state_to_the_default() {
    let mut state = busy_state();
    assert_ne!(state, ControllerState::default());
    state.apply_all(&ControllerState::default().to_commands());
    assert_eq!(state, ControllerState::default());
}

#[test]
fn resync_leaves_fader_and_mode_alone() {
    let mut state = busy_state();
    *state.fader_mut() = FaderValue(5);
    state.apply(Command::SetOperationMode { mode: OperationMode::Standard });
    state.apply_all(&ControllerState::default().to_commands());
    let mut expected = ControllerState::default();
    *expected.fader_mut() = FaderValue(5);
    expected.apply(Command::SetOperationMode { mode: OperationMode::Standard });
    assert_eq!(state, expected);
    assert_ne!(state, ControllerState::default());
}

#[test]
fn resync_of_one_state_over_another_gives_the_first() {
    let target = busy_state();
    let mut state = ControllerState::default();
    *state.button_mut(Button::Button2) = ButtonLedState::On;
    *state.knob_mut(Knob::Knob5) = ring(KnobLedStyle::Pan, 8);
    state.apply_all(&target.to_commands());
    assert_eq!(state, target);
}

#[test]
fn clone_is_equal_and_independent() {
    let state = busy_state();
    let mut copy = state.clone();
    assert_eq!(copy, state);
    *copy.button_mut(Button::Button1) = ButtonLedState::Off;
    assert_ne!(copy, state);
    assert_eq!(*state.button(Button::Button1), ButtonLedState::On);
}

//! What the controls are bound to: the decisions between an event and the
//! keystrokes or avatar commands that follow from it.

use crate::model::{Button, ButtonLedState, FaderValue, Knob};
use vstd::prelude::*;
use vstd::string::StrSliceExecFns;

verus! {

/// One key to tap.
#[derive(Copy, Clone, Debug, PartialEq, Eq, Structural)]
pub enum Keystroke {
    /// The key that types this character.
    Char(char),
    /// The key that deletes the character before the cursor.
    Backspace,
}

/// How many steps of `friction` positions a fader position is worth. A
/// friction of zero counts as one.
pub open spec fn fader_steps(position: FaderValue, friction: u8) -> int {
    if friction == 0 {
        position.0 as int
    } else {
        position.0 as int / friction as int
    }
}

/// The character typed at place `index` of a text: the character of the
/// text there, and its last character beyond its end.
pub open spec fn typed_char(text: Seq<char>, index: int) -> char {
    if index < text.len() {
        text[index]
    } else {
        text.last()
    }
}

/// The keys that a move of the fader types. Going up, each step gained
/// types the next character of `text`, and the last character again once
/// the text is used up; an empty text types nothing. Going down, each step
/// lost deletes one character.
pub open spec fn fader_typing(
    text: Seq<char>,
    prev: FaderValue,
    current: FaderValue,
    friction: u8,
) -> Seq<Keystroke> {
    let from = fader_steps(prev, friction);
    let to = fader_steps(current, friction);
    if to > from {
        if text.len() == 0 {
            Seq::empty()
        } else {
            Seq::new((to - from) as nat, |k: int| Keystroke::Char(typed_char(text, from + k)))
        }
    } else {
        Seq::new((from - to) as nat, |k: int| Keystroke::Backspace)
    }
}

/// The keys to tap when the fader has moved from `prev` to `current`, so
/// that the fader spells out `text` on the way up and takes it back on the
/// way down.
pub fn fader_keystrokes(text: &str, prev: FaderValue, current: FaderValue, friction: u8) -> (keys:
    Vec<Keystroke>)
    ensures
        keys@ == fader_typing(text@, prev, current, friction),
{
    let friction = if friction == 0 { 1 } else { friction };
    let to = current.0 / friction;
    let from = prev.0 / friction;
    let mut keys: Vec<Keystroke> = Vec::new();
    if to > from {
        let length = text.unicode_len();
        if length == 0 {
            return keys;
        }
        let last = text.get_char(length - 1);
        let mut step = from;
        while step < to
            invariant
                from <= step <= to,
                length == text@.len(),
                length > 0,
                last == text@.last(),
                keys@.len() == step - from,
                forall|k: int|
                    0 <= k < keys@.len() ==> keys@[k] == Keystroke::Char(
                        typed_char(text@, from + k),
                    ),
            decreases to - step,
        {
            let c = if (step as usize) < length {
                text.get_char(step as usize)
            } else {
                last
            };
            keys.push(Keystroke::Char(c));
            step += 1;
        }
    } else {
        let mut step = to;
        while step < from
            invariant
                to <= step <= from,
                keys@.len() == step - to,
                forall|k: int| 0 <= k < keys@.len() ==> keys@[k] == Keystroke::Backspace,
            decreases from - step,
        {
            keys.push(Keystroke::Backspace);
            step += 1;
        }
    }
    assert(keys@ =~= fader_typing(text@, prev, current, friction));
    keys
}

/// Where a button event goes.
#[derive(Copy, Clone, Debug, PartialEq, Eq, Structural)]
pub enum ButtonRoute {
    /// Nowhere: the button was released.
    Ignored,
    /// To the button's own LED, which is toggled: the button selects a
    /// layer.
    Layer,
    /// To the avatar.
    Avatar,
    /// To the keyboard.
    Keyboard,
}

/// Where a button event goes, given what the LED of layer A shows. Releases
/// go nowhere. The two layer buttons toggle their own LED. The other
/// buttons drive the avatar while layer A is on, and the keyboard while it
/// is not.
pub open spec fn button_route(button: Button, is_down: bool, layer_a: ButtonLedState) -> ButtonRoute {
    if !is_down {
        ButtonRoute::Ignored
    } else if button == Button::LayerA || button == Button::LayerB {
        ButtonRoute::Layer
    } else if layer_a.is_on() {
        ButtonRoute::Avatar
    } else {
        ButtonRoute::Keyboard
    }
}

/// Decides where a button event goes.
pub fn route_button(button: Button, is_down: bool, layer_a: ButtonLedState) -> (route: ButtonRoute)
    ensures
        route == button_route(button, is_down, layer_a),
{
    if !is_down {
        ButtonRoute::Ignored
    } else if matches!(button, Button::LayerA | Button::LayerB) {
        ButtonRoute::Layer
    } else if layer_a.is_on() {
        ButtonRoute::Avatar
    } else {
        ButtonRoute::Keyboard
    }
}

/// What a knob event leads to.
#[derive(Copy, Clone, Debug, PartialEq, Eq, Structural)]
pub enum KnobRoute {
    /// Nothing at all.
    Nothing,
    /// The avatar's parameters are sent again, unchanged.
    RefreshOnly,
    /// One of the avatar's two arm parameters changes, and the knob's ring
    /// follows; then the parameters are sent again. `raise` tells which of
    /// the two knobs it is: the one that raises the parameter on a turn in
    /// the positive direction, or the one that lowers it. `reset` puts the
    /// parameter back to zero instead of changing it by the turn.
    Arm { raise: bool, reset: bool },
    /// The avatar's rotation changes, and the knob's ring follows; then the
    /// parameters are sent again. `reset` puts the rotation back to zero
    /// instead of changing it by the turn.
    Spin { reset: bool },
}

/// What a knob event leads to. `pressed` is `None` for a turn, and for a
/// press or release whether the knob went down. The first two knobs drive
/// the arms and the last one the rotation: a turn changes the parameter, a
/// press resets it, a release does nothing. The knobs between them are bound
/// to nothing, and every event of theirs refreshes the parameters.
pub open spec fn knob_route(knob: Knob, pressed: Option<bool>) -> KnobRoute {
    match knob {
        Knob::Knob1 | Knob::Knob2 | Knob::Knob8 => match pressed {
            Some(false) => KnobRoute::Nothing,
            _ => if knob == Knob::Knob8 {
                KnobRoute::Spin { reset: pressed is Some }
            } else {
                KnobRoute::Arm { raise: knob == Knob::Knob1, reset: pressed is Some }
            },
        },
        _ => KnobRoute::RefreshOnly,
    }
}

/// Decides what a knob event leads to.
pub fn route_knob(knob: Knob, pressed: Option<bool>) -> (route: KnobRoute)
    ensures
        route == knob_route(knob, pressed),
{
    let reset = match pressed {
        Some(false) => {
            return match knob {
                Knob::Knob1 | Knob::Knob2 | Knob::Knob8 => KnobRoute::Nothing,
                _ => KnobRoute::RefreshOnly,
            };
        },
        Some(true) => true,
        None => false,
    };
    match knob {
        Knob::Knob1 => KnobRoute::Arm { raise: true, reset },
        Knob::Knob2 => KnobRoute::Arm { raise: false, reset },
        Knob::Knob8 => KnobRoute::Spin { reset },
        _ => KnobRoute::RefreshOnly,
    }
}

/// What a button does to the avatar.
#[derive(Copy, Clone, Debug, PartialEq, Eq, Structural)]
pub enum AvatarAction {
    /// Nothing: the button is not bound.
    Nothing,
    /// Shows the expression of this number, or clears it if it is showing.
    Expression(u8),
    /// Triggers the hotkey of this number.
    Hotkey(i32),
    /// Sticks the tongue out, or takes it back in.
    Tongue,
    /// Puts the sunglasses on or off, and toggles the button's LED.
    Sunglasses,
}

/// The hotkey that puts the sunglasses on or off.
pub const SUNGLASSES_HOTKEY: i32 = 1;

/// What each button is bound to while the avatar layer is on. The first six
/// buttons show the expressions one to six.
pub open spec fn avatar_binding(button: Button) -> AvatarAction {
    match button {
        Button::Button1 => AvatarAction::Expression(1),
        Button::Button2 => AvatarAction::Expression(2),
        Button::Button3 => AvatarAction::Expression(3),
        Button::Button4 => AvatarAction::Expression(4),
        Button::Button5 => AvatarAction::Expression(5),
        Button::Button6 => AvatarAction::Expression(6),
        Button::Button7 => AvatarAction::Hotkey(2),
        Button::Button8 => AvatarAction::Hotkey(3),
        Button::Button9 => AvatarAction::Tongue,
        Button::Button10 => AvatarAction::Sunglasses,
        Button::Button16 => AvatarAction::Hotkey(8),
        _ => AvatarAction::Nothing,
    }
}

/// Looks up what a button does to the avatar.
pub fn avatar_action(button: Button) -> (action: AvatarAction)
    ensures
        action == avatar_binding(button),
{
    match button {
        Button::Button1 => AvatarAction::Expression(1),
        Button::Button2 => AvatarAction::Expression(2),
        Button::Button3 => AvatarAction::Expression(3),
        Button::Button4 => AvatarAction::Expression(4),
        Button::Button5 => AvatarAction::Expression(5),
        Button::Button6 => AvatarAction::Expression(6),
        Button::Button7 => AvatarAction::Hotkey(2),
        Button::Button8 => AvatarAction::Hotkey(3),
        Button::Button9 => AvatarAction::Tongue,
        Button::Button10 => AvatarAction::Sunglasses,
        Button::Button16 => AvatarAction::Hotkey(8),
        _ => AvatarAction::Nothing,
    }
}

/// How many buttons show an expression: the first six.
pub const EXPRESSIONS: usize = 6;

/// What the six expression buttons show after one of them was pressed, each
/// at the dense index of its button. The pressed button is lit and the
/// others are dark; if the press cleared the expression, or the pressed
/// button is none of the six, all are dark.
pub fn expression_leds(pressed: Button, cleared: bool) -> (leds: [ButtonLedState; 6])
    ensures
        forall|i: int|
            0 <= i < EXPRESSIONS ==> leds@[i] == (if !cleared && Button::from_index(i as usize)
                == Some(pressed) {
                ButtonLedState::On
            } else {
                ButtonLedState::Off
            }),
{
    let mut leds = [ButtonLedState::Off;6];
    let index = pressed.to_index();
    if !cleared && index < EXPRESSIONS {
        leds[index] = ButtonLedState::On;
    }
    leds
}

} // verus!

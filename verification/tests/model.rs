use xtouchmini::{Button, ButtonLedState, Knob, KnobLedStyle, KnobState, KnobValue, FaderValue};

fn all_buttons() -> Vec<Button> {
    vec![
        Button::Button1,
        Button::Button2,
        Button::Button3,
        Button::Button4,
        Button::Button5,
        Button::Button6,
        Button::Button7,
        Button::Button8,
        Button::Button9,
        Button::Button10,
        Button::Button11,
        Button::Button12,
        Button::Button13,
        Button::Button14,
        Button::Button15,
        Button::Button16,
        Button::LayerA,
        Button::LayerB,
    ]
}

fn all_knobs() -> Vec<Knob> {
    vec![
        Knob::Knob1,
        Knob::Knob2,
        Knob::Knob3,
        Knob::Knob4,
        Knob::Knob5,
        Knob::Knob6,
        Knob::Knob7,
        Knob::Knob8,
    ]
}

#[test]
fn button_codes_are_the_documented_notes() {
    let expected: Vec<u8> = vec![
        0x59, 0x5a, 0x28, 0x29, 0x2a, 0x2b, 0x2c, 0x2d, 0x57, 0x58, 0x5b, 0x5c, 0x56, 0x5d, 0x5e,
        0x5f, 0x54, 0x55,
    ];
    let codes: Vec<u8> = all_buttons().iter().map(|button| button.to_midi()).collect();
    assert_eq!(codes, expected);
}

#[test]
fn button_from_midi_inverts_to_midi_on_every_code() {
    let buttons = all_buttons();
    for code in 0u8..=255u8 {
        let named: Vec<Button> =
            buttons.iter().copied().filter(|button| button.to_midi() == code).collect();
        match Button::from_midi(code) {
            Some(button) => assert_eq!(named, vec![button]),
            None => assert!(named.is_empty()),
        }
    }
    for button in buttons {
        assert_eq!(Button::from_midi(button.to_midi()), Some(button));
    }
}

#[test]
fn button_index_is_a_bijection_onto_zero_to_eighteen() {
    assert_eq!(Button::COUNT, 18);
    let buttons = all_buttons();
    for (position, button) in buttons.iter().enumerate() {
        assert_eq!(button.to_index(), position);
        assert_eq!(Button::from_index(position), Some(*button));
    }
    assert_eq!(Button::from_index(18), None);
    assert_eq!(Button::from_index(usize::MAX), None);
}

#[test]
fn layer_buttons_come_last() {
    assert_eq!(Button::LayerA.to_index(), 16);
    assert_eq!(Button::LayerB.to_index(), 17);
    assert_eq!(Button::LayerA.to_midi(), 0x54);
    assert_eq!(Button::LayerB.to_midi(), 0x55);
}

#[test]
fn knob_codes_are_one_to_eight() {
    let codes: Vec<u8> = all_knobs().iter().map(|knob| knob.to_midi()).collect();
    assert_eq!(codes, vec![1, 2, 3, 4, 5, 6, 7, 8]);
    assert_eq!(Knob::from_midi(0), None);
    assert_eq!(Knob::from_midi(1), Some(Knob::Knob1));
    assert_eq!(Knob::from_midi(8), Some(Knob::Knob8));
    assert_eq!(Knob::from_midi(9), None);
    assert_eq!(Knob::from_midi(255), None);
}

#[test]
fn knob_index_is_a_bijection_onto_zero_to_eight() {
    assert_eq!(Knob::COUNT, 8);
    for (position, knob) in all_knobs().iter().enumerate() {
        assert_eq!(knob.to_index(), position);
        assert_eq!(Knob::from_index(position), Some(*knob));
    }
    assert_eq!(Knob::from_index(8), None);
}

#[test]
fn knob_codes_differ_by_category() {
    assert_eq!(Knob::Knob1.turn_code(), 0x10);
    assert_eq!(Knob::Knob8.turn_code(), 0x17);
    assert_eq!(Knob::Knob1.press_code(), 0x20);
    assert_eq!(Knob::Knob8.press_code(), 0x27);
    assert_eq!(Knob::Knob1.led_code(), 0x30);
    assert_eq!(Knob::Knob8.led_code(), 0x37);
}

#[test]
fn knob_category_codes_invert_on_every_code() {
    for code in 0u8..=255u8 {
        match Knob::from_turn_code(code) {
            Some(knob) => assert_eq!(knob.turn_code(), code),
            None => assert!(!(0x10..=0x17).contains(&code)),
        }
        match Knob::from_press_code(code) {
            Some(knob) => assert_eq!(knob.press_code(), code),
            None => assert!(!(0x20..=0x27).contains(&code)),
        }
    }
    for knob in all_knobs() {
        assert_eq!(Knob::from_turn_code(knob.turn_code()), Some(knob));
        assert_eq!(Knob::from_press_code(knob.press_code()), Some(knob));
    }
}

#[test]
fn no_button_note_is_a_knob_press_note() {
    for button in all_buttons() {
        assert_eq!(Knob::from_press_code(button.to_midi()), None);
    }
    for knob in all_knobs() {
        assert_eq!(Button::from_midi(knob.press_code()), None);
    }
}

#[test]
fn button_led_states_have_their_data_bytes() {
    assert_eq!(ButtonLedState::Off.to_midi(), 0x00);
    assert_eq!(ButtonLedState::On.to_midi(), 0x7f);
    assert_eq!(ButtonLedState::Blink.to_midi(), 0x01);
    assert_eq!(ButtonLedState::from_midi(0x00), Some(ButtonLedState::Off));
    assert_eq!(ButtonLedState::from_midi(0x7f), Some(ButtonLedState::On));
    assert_eq!(ButtonLedState::from_midi(0x01), Some(ButtonLedState::Blink));
    assert_eq!(ButtonLedState::from_midi(0x02), None);
    assert_eq!(ButtonLedState::Off.to_index(), 0);
    assert_eq!(ButtonLedState::On.to_index(), 1);
    assert_eq!(ButtonLedState::Blink.to_index(), 2);
    assert_eq!(ButtonLedState::from_index(2), Some(ButtonLedState::Blink));
    assert_eq!(ButtonLedState::from_index(3), None);
    assert_eq!(ButtonLedState::COUNT, 3);
}

#[test]
fn knob_led_styles_have_their_offsets() {
    assert_eq!(KnobLedStyle::Single.offset(), 0x00);
    assert_eq!(KnobLedStyle::Trim.offset(), 0x10);
    assert_eq!(KnobLedStyle::Fan.offset(), 0x20);
    assert_eq!(KnobLedStyle::Spread.offset(), 0x40);
    assert_eq!(KnobLedStyle::Pan.offset(), 0x50);
}

#[test]
fn knob_value_is_clamped_to_the_ring() {
    assert_eq!(KnobValue::MIN, 0);
    assert_eq!(KnobValue::MAX, 11);
    assert_eq!(KnobValue::new(0).get(), 0);
    assert_eq!(KnobValue::new(7).get(), 7);
    assert_eq!(KnobValue::new(11).get(), 11);
    assert_eq!(KnobValue::new(12).get(), 11);
    assert_eq!(KnobValue::new(99).get(), 11);
    assert_eq!(KnobValue::new(255).get(), 11);
    assert_eq!(KnobValue::new(99), KnobValue::new(11));
}

#[test]
fn every_knob_value_is_within_the_ring() {
    for requested in 0u8..=255u8 {
        let value = KnobValue::new(requested);
        assert!(value.get() <= KnobValue::MAX);
        assert_eq!(value.get(), requested.min(KnobValue::MAX));
    }
}

#[test]
fn defaults_are_the_baseline() {
    assert_eq!(ButtonLedState::default(), ButtonLedState::Off);
    assert_eq!(KnobLedStyle::default(), KnobLedStyle::Single);
    assert_eq!(KnobValue::default().get(), 0);
    assert_eq!(
        KnobState::default(),
        KnobState { style: KnobLedStyle::Single, value: KnobValue::new(0) }
    );
    assert_eq!(FaderValue::default(), FaderValue(0));
    assert_eq!(FaderValue::MIN, 0);
    assert_eq!(FaderValue::MAX, 127);
}

#[test]
fn only_a_steadily_lit_led_is_on() {
    assert!(ButtonLedState::On.is_on());
    assert!(!ButtonLedState::Off.is_on());
    assert!(!ButtonLedState::Blink.is_on());
}

#[test]
fn toggling_turns_on_what_is_not_on() {
    assert_eq!(ButtonLedState::On.negated(), ButtonLedState::Off);
    assert_eq!(ButtonLedState::Off.negated(), ButtonLedState::On);
    assert_eq!(ButtonLedState::Blink.negated(), ButtonLedState::On);
}

//! The wire codec and the output state of a small MIDI control
//! surface: eight rotary knobs with LED rings, sixteen buttons, two layer
//! buttons and one fader.
//!
//! Inbound three-byte frames decode into [`Event`]s; outbound [`Command`]s
//! encode into three-byte frames. A [`ControllerState`] mirrors what the
//! software last asked the device to show, and a [`Controller`] hands
//! commands, in call order, to the queue that feeds the single writer.

pub mod bindings;
pub mod command;
pub mod device;
pub mod event;
pub mod model;
pub mod output;
pub mod state;

pub use crate::command::{Command, OperationMode};
pub use crate::event::{DecodeError, Event};
pub use crate::output::{
    send_outcome, writer_step, Controller, EnqueueError, WriterAction, WriterEvent,
};
pub use crate::state::ControllerState;
pub use crate::model::{
    Button, ButtonLedState, Category, FaderValue, Knob, KnobLedStyle, KnobState, KnobValue,
};

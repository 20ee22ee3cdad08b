//! The change, focus and blur callbacks of the retained input family
//! (`Input`, `NumberInput`, `OtpInput`, `Editor`), kept across renders, and
//! which of them an event of the input's state runs.

use vstd::prelude::*;

verus! {

/// The managed callbacks an input component exposes, as callback tokens.
#[derive(PartialEq, Eq, Clone, Copy, Debug, Structural)]
pub struct InputCallbacks {
    pub change: Option<u64>,
    pub focus: Option<u64>,
    pub blur: Option<u64>,
}

/// The callbacks retained with an input's state; each render replaces them.
pub struct RetainedInputCallbacks {
    callbacks: InputCallbacks,
}

impl View for RetainedInputCallbacks {
    type V = InputCallbacks;

    closed spec fn view(&self) -> InputCallbacks {
        self.callbacks
    }
}

/// An event the state of a retained input emits.
#[derive(PartialEq, Eq, Clone, Copy, Debug, Structural)]
pub enum InputEvent {
    Change,
    Focus,
    Blur,
    /// Enter was pressed in a single-line input.
    PressEnter,
    /// Every digit of a one-time password was entered.
    Complete,
}

/// The callback `event` runs, if any: `Change` runs the change callback with
/// the current text, `Focus` and `Blur` theirs, and the other events none.
pub open spec fn callback_for_event(callbacks: InputCallbacks, event: InputEvent) -> Option<u64> {
    match event {
        InputEvent::Change => callbacks.change,
        InputEvent::Focus => callbacks.focus,
        InputEvent::Blur => callbacks.blur,
        _ => None,
    }
}

impl RetainedInputCallbacks {
    /// Retains the callbacks of the first render.
    pub fn new(initial: InputCallbacks) -> (retained: Self)
        ensures
            retained@ == initial,
    {
        RetainedInputCallbacks { callbacks: initial }
    }

    /// Replaces the callbacks for the current render.
    pub fn set(&mut self, callbacks: InputCallbacks)
        ensures
            final(self)@ == callbacks,
    {
        self.callbacks = callbacks;
    }

    /// The callbacks of the latest render.
    pub fn current(&self) -> (callbacks: InputCallbacks)
        ensures
            callbacks == self@,
    {
        self.callbacks
    }

    /// The callback token `event` runs with the callbacks of the latest render.
    pub fn callback_for(&self, event: InputEvent) -> (token: Option<u64>)
        ensures
            token == callback_for_event(self@, event),
    {
        match event {
            InputEvent::Change => self.callbacks.change,
            InputEvent::Focus => self.callbacks.focus,
            InputEvent::Blur => self.callbacks.blur,
            _ => None,
        }
    }
}

} // verus!

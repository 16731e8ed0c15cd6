//! A debounced button state machine. Raw down/up events are registered as
//! they arrive; one `update` per frame folds the pending event into the
//! state, distinguishing "just pressed" and "just released" frames from held
//! and idle ones.

use vstd::prelude::*;

verus! {

#[derive(Debug, Clone, Copy, PartialEq, Eq, Structural)]
pub enum ButtonEvent {
    Down,
    Up,
}

#[derive(Debug, Clone, Copy, PartialEq, Eq, Structural)]
pub enum ButtonState {
    Released,
    ReleasedNow,
    Pressed,
    PressedNow,
}

/// The state after one update: a released button goes to `PressedNow` on a
/// down event and otherwise settles at `Released`; a pressed button goes to
/// `ReleasedNow` on an up event and otherwise settles at `Pressed`.
pub open spec fn spec_next_state(state: ButtonState, event: Option<ButtonEvent>) -> ButtonState {
    match state {
        ButtonState::Released | ButtonState::ReleasedNow => {
            if event == Some(ButtonEvent::Down) {
                ButtonState::PressedNow
            } else {
                ButtonState::Released
            }
        },
        ButtonState::Pressed | ButtonState::PressedNow => {
            if event == Some(ButtonEvent::Up) {
                ButtonState::ReleasedNow
            } else {
                ButtonState::Pressed
            }
        },
    }
}

impl ButtonState {
    pub fn next_state(&self, event: Option<ButtonEvent>) -> (r: ButtonState)
        ensures
            r == spec_next_state(*self, event),
    {
        match self {
            ButtonState::Released | ButtonState::ReleasedNow => {
                if matches!(event, Some(ButtonEvent::Down)) {
                    ButtonState::PressedNow
                } else {
                    ButtonState::Released
                }
            },
            ButtonState::Pressed | ButtonState::PressedNow => {
                if matches!(event, Some(ButtonEvent::Up)) {
                    ButtonState::ReleasedNow
                } else {
                    ButtonState::Pressed
                }
            },
        }
    }
}

impl Default for ButtonState {
    fn default() -> (r: ButtonState)
        ensures
            r == ButtonState::Released,
    {
        ButtonState::Released
    }
}

#[derive(Debug, Clone, Copy)]
pub struct Button {
    state: ButtonState,
    event: Option<ButtonEvent>,
}

/// Mathematical model of one button.
#[verifier::ext_equal]
pub ghost struct ButtonModel {
    pub state: ButtonState,
    pub event: Option<ButtonEvent>,
}

impl View for Button {
    type V = ButtonModel;

    closed spec fn view(&self) -> ButtonModel {
        ButtonModel { state: self.state, event: self.event }
    }
}

/// A fresh button: released, no pending event.
pub open spec fn spec_new_button() -> ButtonModel {
    ButtonModel { state: ButtonState::Released, event: None }
}

/// One update folds the pending event into the state and clears it.
pub open spec fn spec_update_button(m: ButtonModel) -> ButtonModel {
    ButtonModel { state: spec_next_state(m.state, m.event), event: None }
}

/// Whether the state reads as released (idle or released this frame).
pub open spec fn spec_is_released(state: ButtonState) -> bool {
    state == ButtonState::Released || state == ButtonState::ReleasedNow
}

/// Whether the state reads as pressed (held or pressed this frame).
pub open spec fn spec_is_pressed(state: ButtonState) -> bool {
    state == ButtonState::Pressed || state == ButtonState::PressedNow
}

impl Button {
    pub fn new() -> (r: Button)
        ensures
            r@ == spec_new_button(),
    {
        Button { state: ButtonState::Released, event: None }
    }

    /// Records the most recent raw event; it takes effect at the next update.
    pub fn register_event(&mut self, event: ButtonEvent)
        ensures
            final(self)@ == (ButtonModel { event: Some(event), ..old(self)@ }),
    {
        self.event = Some(event);
    }

    pub fn update(&mut self)
        ensures
            final(self)@ == spec_update_button(old(self)@),
    {
        self.state = self.state.next_state(self.event);
        self.event = None;
    }

    pub fn is_released(&self) -> (r: bool)
        ensures
            r == spec_is_released(self@.state),
    {
        matches!(self.state, ButtonState::Released | ButtonState::ReleasedNow)
    }

    pub fn is_pressed(&self) -> (r: bool)
        ensures
            r == spec_is_pressed(self@.state),
    {
        matches!(self.state, ButtonState::Pressed | ButtonState::PressedNow)
    }

    pub fn is_released_now(&self) -> (r: bool)
        ensures
            r == (self@.state == ButtonState::ReleasedNow),
    {
        matches!(self.state, ButtonState::ReleasedNow)
    }

    pub fn is_pressed_now(&self) -> (r: bool)
        ensures
            r == (self@.state == ButtonState::PressedNow),
    {
        matches!(self.state, ButtonState::PressedNow)
    }
}

impl Default for Button {
    fn default() -> (r: Button)
        ensures
            r@ == spec_new_button(),
    {
        Button::new()
    }
}

} // verus!

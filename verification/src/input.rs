//! Input devices: the quit request, the mouse and the keyboard, fed by plain
//! input events. The window's event pump translates its events into
//! [`InputEvent`] values outside the library; dispatching them into the
//! device state machines happens here.

use vstd::prelude::*;

use crate::button::ButtonEvent;
use crate::keyboard::{spec_register, Keyboard};
use crate::mouse::{spec_new_mouse, spec_update_mouse, Mouse, MouseModel};
use crate::renderer::Canvas;

verus! {

#[derive(Debug, Clone, Copy, PartialEq, Eq, Structural)]
pub enum MouseButton {
    Unknown,
    Left,
    Middle,
    Right,
    X1,
    X2,
}

/// One input event, as plain data: a quit request, a mouse button edge, a
/// cursor move in window coordinates, or a key edge by key code.
#[derive(Debug, Clone, Copy, PartialEq, Eq, Structural)]
pub enum InputEvent {
    Quit,
    MouseButtonDown { button: MouseButton },
    MouseButtonUp { button: MouseButton },
    MouseMotion { x: i32, y: i32 },
    KeyDown { key: u32 },
    KeyUp { key: u32 },
}

pub struct InputDevices {
    pub quit: bool,
    pub mouse: Mouse,
    pub keyboard: Keyboard<u32>,
}

/// Mathematical model of the input devices.
#[verifier::ext_equal]
pub ghost struct InputDevicesModel {
    pub quit: bool,
    pub mouse: MouseModel,
    pub keyboard: Seq<(u32, crate::button::ButtonModel)>,
}

impl View for InputDevices {
    type V = InputDevicesModel;

    closed spec fn view(&self) -> InputDevicesModel {
        InputDevicesModel { quit: self.quit, mouse: self.mouse@, keyboard: self.keyboard@ }
    }
}

/// How one event changes the devices: quit sets the quit request, mouse
/// button edges go to the matching button (an unknown button is ignored),
/// cursor moves record the window position, key edges go to the keyboard.
pub open spec fn spec_register_input(m: InputDevicesModel, event: InputEvent) -> InputDevicesModel {
    match event {
        InputEvent::Quit => InputDevicesModel { quit: true, ..m },
        InputEvent::MouseButtonDown { button } => InputDevicesModel {
            mouse: spec_mouse_button(m.mouse, button, ButtonEvent::Down),
            ..m
        },
        InputEvent::MouseButtonUp { button } => InputDevicesModel {
            mouse: spec_mouse_button(m.mouse, button, ButtonEvent::Up),
            ..m
        },
        InputEvent::MouseMotion { x, y } => InputDevicesModel {
            mouse: MouseModel { window_pos: crate::geometry::Point { x, y }, ..m.mouse },
            ..m
        },
        InputEvent::KeyDown { key } => InputDevicesModel {
            keyboard: spec_register(m.keyboard, key, ButtonEvent::Down),
            ..m
        },
        InputEvent::KeyUp { key } => InputDevicesModel {
            keyboard: spec_register(m.keyboard, key, ButtonEvent::Up),
            ..m
        },
    }
}

/// The mouse with `event` pending on the given button.
pub open spec fn spec_mouse_button(m: MouseModel, button: MouseButton, event: ButtonEvent)
    -> MouseModel {
    match button {
        MouseButton::Unknown => m,
        MouseButton::Left => MouseModel {
            left_button: crate::button::ButtonModel { event: Some(event), ..m.left_button },
            ..m
        },
        MouseButton::Middle => MouseModel {
            middle_button: crate::button::ButtonModel { event: Some(event), ..m.middle_button },
            ..m
        },
        MouseButton::Right => MouseModel {
            right_button: crate::button::ButtonModel { event: Some(event), ..m.right_button },
            ..m
        },
        MouseButton::X1 => MouseModel {
            x1_button: crate::button::ButtonModel { event: Some(event), ..m.x1_button },
            ..m
        },
        MouseButton::X2 => MouseModel {
            x2_button: crate::button::ButtonModel { event: Some(event), ..m.x2_button },
            ..m
        },
    }
}

impl InputDevices {
    pub fn new() -> (r: InputDevices)
        ensures
            r@.quit == false,
            r@.mouse == spec_new_mouse(),
            r@.keyboard == Seq::<(u32, crate::button::ButtonModel)>::empty(),
    {
        InputDevices { quit: false, mouse: Mouse::new(), keyboard: Keyboard::new() }
    }

    /// Dispatches one event into the devices.
    pub fn register_event(&mut self, event: &InputEvent)
        ensures
            final(self)@ == spec_register_input(old(self)@, *event),
    {
        match *event {
            InputEvent::Quit => {
                self.quit = true;
            },
            InputEvent::MouseButtonDown { button } => match button {
                MouseButton::Unknown => (),
                MouseButton::Left => {
                    self.mouse.left_button.register_event(ButtonEvent::Down);
                },
                MouseButton::Middle => {
                    self.mouse.middle_button.register_event(ButtonEvent::Down);
                },
                MouseButton::Right => {
                    self.mouse.right_button.register_event(ButtonEvent::Down);
                },
                MouseButton::X1 => {
                    self.mouse.x1_button.register_event(ButtonEvent::Down);
                },
                MouseButton::X2 => {
                    self.mouse.x2_button.register_event(ButtonEvent::Down);
                },
            },
            InputEvent::MouseButtonUp { button } => match button {
                MouseButton::Unknown => (),
                MouseButton::Left => {
                    self.mouse.left_button.register_event(ButtonEvent::Up);
                },
                MouseButton::Middle => {
                    self.mouse.middle_button.register_event(ButtonEvent::Up);
                },
                MouseButton::Right => {
                    self.mouse.right_button.register_event(ButtonEvent::Up);
                },
                MouseButton::X1 => {
                    self.mouse.x1_button.register_event(ButtonEvent::Up);
                },
                MouseButton::X2 => {
                    self.mouse.x2_button.register_event(ButtonEvent::Up);
                },
            },
            InputEvent::MouseMotion { x, y } => {
                self.mouse.set_window_pos(x, y);
            },
            InputEvent::KeyDown { key } => {
                self.keyboard.register_event(key, ButtonEvent::Down);
            },
            InputEvent::KeyUp { key } => {
                self.keyboard.register_event(key, ButtonEvent::Up);
            },
        }
        proof {
            match *event {
                InputEvent::Quit => {
                    assert(self@ =~~= spec_register_input(old(self)@, *event));
                },
                InputEvent::MouseButtonDown { button } => {
                    match button {
                        MouseButton::Unknown => {
                            assert(self@.mouse =~~= spec_mouse_button(
                                old(self)@.mouse,
                                button,
                                ButtonEvent::Down,
                            ));
                        },
                        MouseButton::Left => {
                            assert(self@.mouse =~~= spec_mouse_button(
                                old(self)@.mouse,
                                button,
                                ButtonEvent::Down,
                            ));
                        },
                        MouseButton::Middle => {
                            assert(self@.mouse =~~= spec_mouse_button(
                                old(self)@.mouse,
                                button,
                                ButtonEvent::Down,
                            ));
                        },
                        MouseButton::Right => {
                            assert(self@.mouse =~~= spec_mouse_button(
                                old(self)@.mouse,
                                button,
                                ButtonEvent::Down,
                            ));
                        },
                        MouseButton::X1 => {
                            assert(self@.mouse =~~= spec_mouse_button(
                                old(self)@.mouse,
                                button,
                                ButtonEvent::Down,
                            ));
                        },
                        MouseButton::X2 => {
                            assert(self@.mouse =~~= spec_mouse_button(
                                old(self)@.mouse,
                                button,
                                ButtonEvent::Down,
                            ));
                        },
                    }
                    assert(self@ =~~= spec_register_input(old(self)@, *event));
                },
                InputEvent::MouseButtonUp { button } => {
                    match button {
                        MouseButton::Unknown => {
                            assert(self@.mouse =~~= spec_mouse_button(
                                old(self)@.mouse,
                                button,
                                ButtonEvent::Up,
                            ));
                        },
                        MouseButton::Left => {
                            assert(self@.mouse =~~= spec_mouse_button(
                                old(self)@.mouse,
                                button,
                                ButtonEvent::Up,
                            ));
                        },
                        MouseButton::Middle => {
                            assert(self@.mouse =~~= spec_mouse_button(
                                old(self)@.mouse,
                                button,
                                ButtonEvent::Up,
                            ));
                        },
                        MouseButton::Right => {
                            assert(self@.mouse =~~= spec_mouse_button(
                                old(self)@.mouse,
                                button,
                                ButtonEvent::Up,
                            ));
                        },
                        MouseButton::X1 => {
                            assert(self@.mouse =~~= spec_mouse_button(
                                old(self)@.mouse,
                                button,
                                ButtonEvent::Up,
                            ));
                        },
                        MouseButton::X2 => {
                            assert(self@.mouse =~~= spec_mouse_button(
                                old(self)@.mouse,
                                button,
                                ButtonEvent::Up,
                            ));
                        },
                    }
                    assert(self@ =~~= spec_register_input(old(self)@, *event));
                },
                InputEvent::MouseMotion { x, y } => {
                    assert(self@ =~~= spec_register_input(old(self)@, *event));
                },
                InputEvent::KeyDown { key } => {
                    assert(self@ =~~= spec_register_input(old(self)@, *event));
                },
                InputEvent::KeyUp { key } => {
                    assert(self@ =~~= spec_register_input(old(self)@, *event));
                },
            }
        }
    }

    /// One per-frame update: the mouse against the current canvas placement,
    /// and every keyboard button.
    pub fn update(&mut self, canvas: &Canvas)
        requires
            canvas.wf(),
        ensures
            final(self)@.quit == old(self)@.quit,
            final(self)@.mouse == spec_update_mouse(old(self)@.mouse, *canvas),
            final(self)@.keyboard.len() == old(self)@.keyboard.len(),
            forall|k: int|
                0 <= k < old(self)@.keyboard.len() ==> (#[trigger] final(self)@.keyboard[k]).0
                    == old(self)@.keyboard[k].0 && final(self)@.keyboard[k].1
                    == crate::button::spec_update_button(old(self)@.keyboard[k].1),
    {
        self.mouse.update(canvas);
        self.keyboard.update();
    }
}

} // verus!

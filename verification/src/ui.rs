//! State for the built-in user interface: the editor panel settings and the
//! per-widget button record of the immediate-mode game UI. The drawing and
//! hit-testing around these run through the renderer and input modules.

use vstd::prelude::*;

use crate::geometry::Rect;

verus! {

pub const BUTTON_WIDTH: u32 = 75;

pub const BUTTON_HEIGHT: u32 = 23;

/// The editor panel's persistent settings.
pub struct Editor {
    pub layout_initialized: bool,
    pub zoom_amount: u8,
    pub show_demo: bool,
}

impl Editor {
    pub fn new() -> (r: Editor)
        ensures
            r.layout_initialized == false,
            r.zoom_amount == 3,
            r.show_demo == false,
    {
        Editor { layout_initialized: false, show_demo: false, zoom_amount: 3 }
    }
}

/// One immediate-mode UI button: its place on the canvas and the interaction
/// state carried between frames.
#[derive(Debug)]
pub struct Button {
    pub is_hot: bool,
    pub rect: Rect,
    pub is_hovered: bool,
    pub is_pressed: bool,
    pub was_pressed: bool,
    pub text: String,
}

impl Button {
    pub fn new() -> (r: Button)
        ensures
            r.is_hot == true,
            r.rect == (Rect { x: 0, y: 0, w: BUTTON_WIDTH, h: BUTTON_HEIGHT }),
            r.is_hovered == false,
            r.is_pressed == false,
            r.was_pressed == false,
            r.text@ == Seq::<char>::empty(),
    {
        Button {
            is_hot: true,
            rect: Rect { x: 0, y: 0, w: BUTTON_WIDTH, h: BUTTON_HEIGHT },
            is_hovered: false,
            is_pressed: false,
            was_pressed: false,
            text: String::new(),
        }
    }

    /// A button has been released this frame when it is hovered and was
    /// pressed but no longer is.
    pub fn released_now(&self) -> (r: bool)
        ensures
            r == (self.is_hovered && self.was_pressed && !self.is_pressed),
    {
        self.is_hovered && self.was_pressed && !self.is_pressed
    }
}

} // verus!

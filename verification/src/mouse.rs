//! Mouse state: five debounced buttons, the raw window-relative cursor
//! position, and the canvas-relative position derived from it. The canvas
//! transform divides by the canvas scale and rounds to the nearest canvas
//! pixel, so gameplay code works in fixed canvas coordinates whatever the
//! window size.

use vstd::prelude::*;

use crate::button::{spec_update_button, Button, ButtonModel};
use crate::geometry::Point;
use crate::renderer::Canvas;

verus! {

/// `offset / scale` rounded half away from zero, in exact integer arithmetic.
pub open spec fn spec_round_to_scale(offset: int, scale: int) -> int
    recommends
        scale >= 1,
{
    if offset >= 0 {
        (2 * offset + scale) / (2 * scale)
    } else {
        -((2 * (-offset) + scale) / (2 * scale))
    }
}

/// Clamps a value into the `i32` range.
pub open spec fn spec_clamp_i32(v: int) -> int {
    if v < i32::MIN {
        i32::MIN as int
    } else if v > i32::MAX {
        i32::MAX as int
    } else {
        v
    }
}

pub struct Mouse {
    /// Canvas-relative mouse position.
    pub pos: Point,
    pub scroll_amount: u32,
    pub left_button: Button,
    pub right_button: Button,
    pub middle_button: Button,
    pub x1_button: Button,
    pub x2_button: Button,
    /// Window-relative mouse position.
    pub window_pos: Point,
}

/// Mathematical model of the mouse.
#[verifier::ext_equal]
pub ghost struct MouseModel {
    pub pos: Point,
    pub scroll_amount: u32,
    pub left_button: ButtonModel,
    pub right_button: ButtonModel,
    pub middle_button: ButtonModel,
    pub x1_button: ButtonModel,
    pub x2_button: ButtonModel,
    pub window_pos: Point,
}

impl View for Mouse {
    type V = MouseModel;

    open spec fn view(&self) -> MouseModel {
        MouseModel {
            pos: self.pos,
            scroll_amount: self.scroll_amount,
            left_button: self.left_button@,
            right_button: self.right_button@,
            middle_button: self.middle_button@,
            x1_button: self.x1_button@,
            x2_button: self.x2_button@,
            window_pos: self.window_pos,
        }
    }
}

/// One mouse update against a canvas placement: every button folds in its
/// pending event, and the canvas-relative position is the window-relative
/// position moved to the canvas origin, divided by the canvas scale, rounded
/// to the nearest canvas pixel.
pub open spec fn spec_update_mouse(m: MouseModel, canvas: Canvas) -> MouseModel {
    MouseModel {
        left_button: spec_update_button(m.left_button),
        right_button: spec_update_button(m.right_button),
        middle_button: spec_update_button(m.middle_button),
        x1_button: spec_update_button(m.x1_button),
        x2_button: spec_update_button(m.x2_button),
        pos: Point {
            x: spec_clamp_i32(
                spec_round_to_scale(
                    m.window_pos.x - canvas.pos.x as int,
                    canvas.scale as int,
                ),
            ) as i32,
            y: spec_clamp_i32(
                spec_round_to_scale(
                    m.window_pos.y - canvas.pos.y as int,
                    canvas.scale as int,
                ),
            ) as i32,
        },
        ..m
    }
}

/// A fresh mouse: origin positions, all buttons released.
pub open spec fn spec_new_mouse() -> MouseModel {
    MouseModel {
        pos: Point { x: 0, y: 0 },
        scroll_amount: 0,
        left_button: crate::button::spec_new_button(),
        right_button: crate::button::spec_new_button(),
        middle_button: crate::button::spec_new_button(),
        x1_button: crate::button::spec_new_button(),
        x2_button: crate::button::spec_new_button(),
        window_pos: Point { x: 0, y: 0 },
    }
}

impl Mouse {
    pub fn new() -> (r: Mouse)
        ensures
            r@ == spec_new_mouse(),
    {
        let r = Mouse {
            pos: Point { x: 0, y: 0 },
            scroll_amount: 0,
            left_button: Button::new(),
            right_button: Button::new(),
            middle_button: Button::new(),
            x1_button: Button::new(),
            x2_button: Button::new(),
            window_pos: Point { x: 0, y: 0 },
        };
        proof {
            assert(r@ =~= spec_new_mouse());
        }
        r
    }

    /// Records the raw window-relative cursor position.
    pub fn set_window_pos(&mut self, x: i32, y: i32)
        ensures
            final(self)@ == (MouseModel { window_pos: Point { x, y }, ..old(self)@ }),
    {
        self.window_pos = Point { x, y };
        proof {
            assert(self@ =~= (MouseModel { window_pos: Point { x, y }, ..old(self)@ }));
        }
    }

    /// One per-frame update against the current canvas placement.
    pub fn update(&mut self, canvas: &Canvas)
        requires
            canvas.wf(),
        ensures
            final(self)@ == spec_update_mouse(old(self)@, *canvas),
    {
        self.left_button.update();
        self.right_button.update();
        self.middle_button.update();
        self.x1_button.update();
        self.x2_button.update();

        let x = canvas_relative(self.window_pos.x, canvas.pos.x, canvas.scale);
        let y = canvas_relative(self.window_pos.y, canvas.pos.y, canvas.scale);
        self.pos = Point { x, y };
        proof {
            assert(self@ =~= spec_update_mouse(old(self)@, *canvas));
        }
    }
}

/// One coordinate of the canvas transform: offset to the canvas origin,
/// divide by the scale rounding half away from zero, clamp into range.
fn canvas_relative(window_coord: i32, canvas_coord: i32, scale: u32) -> (r: i32)
    requires
        scale >= 1,
    ensures
        r == spec_clamp_i32(
            spec_round_to_scale(window_coord - canvas_coord as int, scale as int),
        ),
{
    let offset = window_coord as i64 - canvas_coord as i64;
    let s = scale as i64;
    let rounded = if offset >= 0 {
        (2 * offset + s) / (2 * s)
    } else {
        -((2 * (-offset) + s) / (2 * s))
    };
    if rounded < i32::MIN as i64 {
        i32::MIN
    } else if rounded > i32::MAX as i64 {
        i32::MAX
    } else {
        rounded as i32
    }
}

} // verus!

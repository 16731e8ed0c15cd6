//! Axis-aligned integer rectangles, dimensions and points, used throughout the
//! engine for layout, clipping and hit-testing. The origin is the top-left
//! corner and `y` grows downward.

use vstd::prelude::*;

verus! {

#[derive(Debug, Clone, Copy, Default, PartialEq, Eq, Structural)]
pub struct Rect {
    pub x: i32,
    pub y: i32,
    pub w: u32,
    pub h: u32,
}

#[derive(Debug, Clone, Copy, Default, PartialEq, Eq, Structural)]
pub struct Dimension {
    pub width: u32,
    pub height: u32,
}

#[derive(Debug, Clone, Copy, Default, PartialEq, Eq, Structural)]
pub struct Point {
    pub x: i32,
    pub y: i32,
}

pub fn rect(x: i32, y: i32, w: u32, h: u32) -> (r: Rect)
    ensures
        r == (Rect { x, y, w, h }),
{
    Rect { x, y, w, h }
}

pub fn point(x: i32, y: i32) -> (r: Point)
    ensures
        r == (Point { x, y }),
{
    Point { x, y }
}

/// A point lies inside a rectangle when it lies within the closed span of the
/// rectangle on both axes; points on the boundary count as inside.
pub open spec fn spec_point_is_inside_rect(point: Point, rect: Rect) -> bool {
    &&& rect.x <= point.x <= rect.x + rect.w
    &&& rect.y <= point.y <= rect.y + rect.h
}

pub fn point_is_inside_rect(point: Point, rect: Rect) -> (r: bool)
    ensures
        r == spec_point_is_inside_rect(point, rect),
{
    let rect_x0 = rect.x as i64;
    let rect_y0 = rect.y as i64;
    let rect_x1 = rect.x as i64 + rect.w as i64;
    let rect_y1 = rect.y as i64 + rect.h as i64;
    let (point_x, point_y) = (point.x as i64, point.y as i64);

    let horizontal_overlap = rect_x0 <= point_x && point_x <= rect_x1;
    let vertical_overlap = rect_y0 <= point_y && point_y <= rect_y1;

    horizontal_overlap && vertical_overlap
}

} // verus!

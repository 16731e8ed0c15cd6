//! The batched renderer: draw calls append vertices to a per-frame batch,
//! grouped into typed sections that tile the vertex buffer contiguously, and
//! the fixed-resolution canvas is scaled and centered onto the window with a
//! uniform integer scale.
//!
//! The renderer here is the data side of the pipeline: it owns the batch, the
//! draw state, the texture table and the canvas placement. Submitting the
//! batch to the GPU only walks this data and lives outside the library.
//!
//! Vertex positions are kept in half-pixel units (twice the pixel coordinate)
//! so that the half-pixel nudge applied to line starts is exact integer data;
//! texture coordinates are kept as exact fractions of the texture size.

use vstd::prelude::*;

use crate::geometry::{Dimension, Point, Rect};
use crate::midpoint;

verus! {

/// Opaque handle for one texture, minted by [`Renderer::add_texture`], never
/// reused, and kept valid by [`Renderer::reload_texture`], which replaces the
/// pixel data behind the same ID.
#[derive(Debug, Clone, Copy, PartialEq, Eq, Hash, Structural)]
pub struct TextureID(u32);

impl View for TextureID {
    type V = nat;

    closed spec fn view(&self) -> nat {
        self.0 as nat
    }
}

#[derive(Debug, Clone, Copy, PartialEq, Eq, Structural)]
pub struct ColorRGBA {
    pub r: u8,
    pub g: u8,
    pub b: u8,
    pub a: u8,
}

/// The color-key value that marks no color as transparent.
pub open spec fn disabled_color_key() -> ColorRGBA {
    ColorRGBA { r: 0, g: 0, b: 0, a: 0 }
}

#[derive(Debug, Clone, Copy, PartialEq, Eq, Structural)]
pub enum PrimitiveType {
    Line,
    Triangle,
    Point,
}

/// One vertex of the batch. `x` and `y` are in half-pixel units: twice the
/// canvas-space pixel coordinate. The texture coordinates are the exact
/// fractions `u_num / u_den` and `v_num / v_den`.
#[derive(Debug, Clone, Copy, PartialEq, Eq, Structural)]
pub struct Vertex {
    pub x: i64,
    pub y: i64,
    pub color: ColorRGBA,
    pub u_num: i64,
    pub u_den: u32,
    pub v_num: i64,
    pub v_den: u32,
}

/// Mathematical model of one vertex, positions still in half-pixel units.
#[verifier::ext_equal]
pub ghost struct VertexModel {
    pub x: int,
    pub y: int,
    pub color: ColorRGBA,
    pub u_num: int,
    pub u_den: int,
    pub v_num: int,
    pub v_den: int,
}

impl View for Vertex {
    type V = VertexModel;

    open spec fn view(&self) -> VertexModel {
        VertexModel {
            x: self.x as int,
            y: self.y as int,
            color: self.color,
            u_num: self.u_num as int,
            u_den: self.u_den as int,
            v_num: self.v_num as int,
            v_den: self.v_den as int,
        }
    }
}

/// An untextured vertex: the texture coordinate is the fixed corner `(0, 0)`
/// of the built-in white texture.
pub open spec fn spec_color_vertex(x_half: int, y_half: int, color: ColorRGBA) -> VertexModel {
    VertexModel { x: x_half, y: y_half, color, u_num: 0, u_den: 1, v_num: 0, v_den: 1 }
}

/// Metadata for a contiguous run of vertices in the batch: how many vertices,
/// drawn as which primitive, with which texture (`None` is the built-in white
/// texture) and which color key.
#[derive(Debug, Clone, Copy, PartialEq, Eq, Structural)]
pub struct VertexSection {
    pub length: usize,
    pub primitive: PrimitiveType,
    pub texture: Option<TextureID>,
    pub color_key: ColorRGBA,
}

#[verifier::ext_equal]
pub ghost struct SectionModel {
    pub length: nat,
    pub primitive: PrimitiveType,
    pub texture: Option<TextureID>,
    pub color_key: ColorRGBA,
}

impl View for VertexSection {
    type V = SectionModel;

    open spec fn view(&self) -> SectionModel {
        SectionModel {
            length: self.length as nat,
            primitive: self.primitive,
            texture: self.texture,
            color_key: self.color_key,
        }
    }
}

/// One texture record: pixel dimensions and the raw RGBA8 bytes, row by row.
#[derive(Debug)]
pub struct TextureData {
    pub width: u32,
    pub height: u32,
    pub rgba: Vec<u8>,
}

#[verifier::ext_equal]
pub ghost struct TextureModel {
    pub width: nat,
    pub height: nat,
    pub rgba: Seq<u8>,
}

impl View for TextureData {
    type V = TextureModel;

    open spec fn view(&self) -> TextureModel {
        TextureModel { width: self.width as nat, height: self.height as nat, rgba: self.rgba@ }
    }
}

impl TextureModel {
    pub open spec fn wf(self) -> bool {
        &&& self.rgba.len() == 4 * self.width * self.height
        &&& self.width <= i32::MAX
        &&& self.height <= i32::MAX
    }
}

/// The fixed-resolution render target: logical size `dim`, the integer scale
/// chosen for the current window, the scaled size, and the top-left placement
/// that centers the scaled canvas in the window.
#[derive(Debug, Clone, Copy, PartialEq, Eq, Structural)]
pub struct Canvas {
    pub dim: Dimension,
    pub scale: u32,
    pub scaled_dim: Dimension,
    pub pos: Point,
}

/// The canvas scale for a window: the largest integer scale at which the
/// canvas still fits the window on both axes, clamped to at least 1 so that a
/// window smaller than the canvas still shows (a cropped) canvas.
pub open spec fn spec_canvas_scale(window_w: int, window_h: int, dim: Dimension) -> int {
    let fit = vstd::math::min(window_w / dim.width as int, window_h / dim.height as int);
    vstd::math::max(fit, 1)
}

/// Centering offset of a span of size `inner` in a span of size `outer`:
/// half the leftover space, rounded toward zero.
pub open spec fn spec_center_offset(outer: int, inner: int) -> int {
    if outer >= inner {
        (outer - inner) / 2
    } else {
        -((inner - outer) / 2)
    }
}

impl Canvas {
    pub open spec fn wf(self) -> bool {
        &&& 1 <= self.dim.width <= i32::MAX
        &&& 1 <= self.dim.height <= i32::MAX
        &&& self.scale >= 1
    }

    /// The canvas placement for a window of the given size: uniform integer
    /// scale, scaled dimensions, centered position.
    pub open spec fn spec_updated(self, window_w: int, window_h: int) -> Canvas {
        let scale = spec_canvas_scale(window_w, window_h, self.dim);
        let scaled = Dimension {
            width: (scale * self.dim.width) as u32,
            height: (scale * self.dim.height) as u32,
        };
        Canvas {
            dim: self.dim,
            scale: scale as u32,
            scaled_dim: scaled,
            pos: Point {
                x: spec_center_offset(window_w, scale * self.dim.width) as i32,
                y: spec_center_offset(window_h, scale * self.dim.height) as i32,
            },
        }
    }

    pub fn new(window_width: u32, window_height: u32, canvas_width: u32, canvas_height: u32) -> (r:
        Canvas)
        requires
            1 <= canvas_width <= i32::MAX,
            1 <= canvas_height <= i32::MAX,
            window_width <= i32::MAX,
            window_height <= i32::MAX,
        ensures
            r == (Canvas {
                dim: Dimension { width: canvas_width, height: canvas_height },
                scale: 1,
                scaled_dim: Dimension { width: canvas_width, height: canvas_height },
                pos: Point { x: 0, y: 0 },
            }).spec_updated(window_width as int, window_height as int),
            r.wf(),
            r.dim == (Dimension { width: canvas_width, height: canvas_height }),
    {
        let mut canvas = Canvas {
            dim: Dimension { width: canvas_width, height: canvas_height },
            scale: 1,
            scaled_dim: Dimension { width: canvas_width, height: canvas_height },
            pos: Point { x: 0, y: 0 },
        };
        canvas.update(window_width, window_height);
        canvas
    }

    /// Recomputes scale, scaled size and centered position for the given
    /// window size; the logical canvas size is unchanged.
    pub fn update(&mut self, window_width: u32, window_height: u32)
        requires
            old(self).wf(),
            window_width <= i32::MAX,
            window_height <= i32::MAX,
        ensures
            final(self).wf(),
            *final(self) == old(self).spec_updated(window_width as int, window_height as int),
    {
        let scale = Self::calculate_scale(window_width, window_height, self.dim);
        proof {
            lemma_scaled_dim_bounded(window_width as int, window_height as int, self.dim);
        }
        let scaled_dim = Self::calculate_scaled_dimensions(scale, self.dim);
        let pos = Self::calculate_position(window_width, window_height, scaled_dim);
        self.scale = scale;
        self.scaled_dim = scaled_dim;
        self.pos = pos;
    }

    pub fn calculate_scale(window_width: u32, window_height: u32, dim: Dimension) -> (r: u32)
        requires
            dim.width >= 1,
            dim.height >= 1,
        ensures
            r == spec_canvas_scale(window_width as int, window_height as int, dim),
    {
        let fit_w = window_width / dim.width;
        let fit_h = window_height / dim.height;
        let fit = if fit_w < fit_h {
            fit_w
        } else {
            fit_h
        };
        if fit < 1 {
            1
        } else {
            fit
        }
    }

    pub fn calculate_scaled_dimensions(scale: u32, dim: Dimension) -> (r: Dimension)
        requires
            scale * dim.width <= u32::MAX,
            scale * dim.height <= u32::MAX,
        ensures
            r.width == scale * dim.width,
            r.height == scale * dim.height,
    {
        Dimension { width: scale * dim.width, height: scale * dim.height }
    }

    pub fn calculate_position(window_width: u32, window_height: u32, scaled_dim: Dimension) -> (r:
        Point)
        requires
            window_width <= i32::MAX,
            window_height <= i32::MAX,
            scaled_dim.width <= i32::MAX,
            scaled_dim.height <= i32::MAX,
        ensures
            r.x == spec_center_offset(window_width as int, scaled_dim.width as int),
            r.y == spec_center_offset(window_height as int, scaled_dim.height as int),
    {
        let x = if window_width >= scaled_dim.width {
            ((window_width - scaled_dim.width) / 2) as i32
        } else {
            -(((scaled_dim.width - window_width) / 2) as i32)
        };
        let y = if window_height >= scaled_dim.height {
            ((window_height - scaled_dim.height) / 2) as i32
        } else {
            -(((scaled_dim.height - window_height) / 2) as i32)
        };
        Point { x, y }
    }
}

/// The scale never scales the canvas beyond the window or, when clamped to 1,
/// beyond the canvas itself; either way the scaled size stays in `i32` range.
proof fn lemma_scaled_dim_bounded(window_w: int, window_h: int, dim: Dimension)
    requires
        1 <= dim.width <= i32::MAX,
        1 <= dim.height <= i32::MAX,
        0 <= window_w <= i32::MAX,
        0 <= window_h <= i32::MAX,
    ensures
        spec_canvas_scale(window_w, window_h, dim) * dim.width <= i32::MAX,
        spec_canvas_scale(window_w, window_h, dim) * dim.height <= i32::MAX,
        spec_canvas_scale(window_w, window_h, dim) >= 1,
{
    let w = dim.width as int;
    let h = dim.height as int;
    let fit = vstd::math::min(window_w / w, window_h / h);
    let scale = spec_canvas_scale(window_w, window_h, dim);
    if fit >= 1 {
        assert(scale == fit);
        vstd::arithmetic::mul::lemma_mul_inequality(fit, window_w / w, w);
        vstd::arithmetic::div_mod::lemma_fundamental_div_mod(window_w, w);
        vstd::arithmetic::div_mod::lemma_mod_bound(window_w, w);
        assert((window_w / w) * w == w * (window_w / w)) by (nonlinear_arith);
        assert(fit * w <= window_w);
        vstd::arithmetic::mul::lemma_mul_inequality(fit, window_h / h, h);
        vstd::arithmetic::div_mod::lemma_fundamental_div_mod(window_h, h);
        vstd::arithmetic::div_mod::lemma_mod_bound(window_h, h);
        assert((window_h / h) * h == h * (window_h / h)) by (nonlinear_arith);
        assert(fit * h <= window_h);
    } else {
        assert(scale == 1);
        assert(scale * w == w) by (nonlinear_arith)
            requires
                scale == 1,
        ;
        assert(scale * h == h) by (nonlinear_arith)
            requires
                scale == 1,
        ;
    }
}

/// Total number of vertices claimed by a run of sections.
pub open spec fn sections_vertex_count(sections: Seq<SectionModel>) -> int
    decreases sections.len(),
{
    if sections.len() == 0 {
        0
    } else {
        sections_vertex_count(sections.drop_last()) + sections.last().length
    }
}

/// Mathematical model of the whole renderer.
#[verifier::ext_equal]
pub ghost struct RendererModel {
    pub textures: Seq<TextureModel>,
    pub draw_color: ColorRGBA,
    pub texture_blend_color: ColorRGBA,
    pub active_color_key: ColorRGBA,
    pub vertices: Seq<VertexModel>,
    pub sections: Seq<SectionModel>,
    pub window_width: nat,
    pub window_height: nat,
    pub canvas: Canvas,
}

impl RendererModel {
    /// Well-formedness: the sections tile the vertex buffer exactly, every
    /// section's texture exists, every texture record holds one RGBA quad per
    /// pixel, and canvas and window sizes stay in the range the viewport math
    /// needs.
    pub open spec fn wf(self) -> bool {
        &&& sections_vertex_count(self.sections) == self.vertices.len()
        &&& forall|i: int|
            0 <= i < self.sections.len() ==> match (#[trigger] self.sections[i]).texture {
                Some(id) => id@ < self.textures.len(),
                None => true,
            }
        &&& forall|i: int| 0 <= i < self.textures.len() ==> (#[trigger] self.textures[i]).wf()
        &&& forall|i: int|
            0 <= i < self.vertices.len() ==> (#[trigger] self.vertices[i]).u_den >= 1
                && self.vertices[i].v_den >= 1
        &&& self.textures.len() <= u32::MAX
        &&& self.window_width <= i32::MAX
        &&& self.window_height <= i32::MAX
        &&& self.canvas.wf()
    }

    /// A valid texture handle.
    pub open spec fn valid_texture(self, id: TextureID) -> bool {
        id@ < self.textures.len()
    }

    /// Appending one draw: the vertices go at the end of the batch and exactly
    /// one section describes them, carrying the active color key.
    pub open spec fn with_section(
        self,
        verts: Seq<VertexModel>,
        primitive: PrimitiveType,
        texture: Option<TextureID>,
    ) -> RendererModel {
        RendererModel {
            vertices: self.vertices + verts,
            sections: self.sections.push(
                SectionModel {
                    length: verts.len(),
                    primitive,
                    texture,
                    color_key: self.active_color_key,
                },
            ),
            ..self
        }
    }

    pub open spec fn spec_clear(self) -> RendererModel {
        RendererModel {
            draw_color: ColorRGBA { r: 0, g: 0, b: 0, a: 255 },
            vertices: Seq::empty(),
            sections: Seq::empty(),
            ..self
        }
    }

    pub open spec fn spec_set_draw_color(self, color: ColorRGBA) -> RendererModel {
        RendererModel { draw_color: color, ..self }
    }

    pub open spec fn spec_set_texture_blend_color(self, color: ColorRGBA) -> RendererModel {
        RendererModel { texture_blend_color: color, ..self }
    }

    pub open spec fn spec_set_color_key(self, r: u8, g: u8, b: u8) -> RendererModel {
        RendererModel { active_color_key: ColorRGBA { r, g, b, a: 255 }, ..self }
    }

    pub open spec fn spec_disable_color_key(self) -> RendererModel {
        RendererModel { active_color_key: disabled_color_key(), ..self }
    }

    pub open spec fn spec_draw_point(self, x: int, y: int) -> RendererModel {
        self.with_section(
            seq![spec_color_vertex(2 * x, 2 * y, self.draw_color)],
            PrimitiveType::Point,
            None,
        )
    }

    pub open spec fn spec_draw_line(self, x0: int, y0: int, x1: int, y1: int) -> RendererModel {
        self.with_section(
            spec_line_vertices(x0, y0, x1, y1, self.draw_color),
            PrimitiveType::Line,
            None,
        )
    }

    /// An outlined rectangle is its four edges drawn as lines: top, left,
    /// right, bottom.
    pub open spec fn spec_draw_rect(self, rect: Rect) -> RendererModel {
        let x = rect.x as int;
        let y = rect.y as int;
        let w = rect.w as int;
        let h = rect.h as int;
        self.spec_draw_line(x, y, x + w, y).spec_draw_line(x, y, x, y + h).spec_draw_line(
            x + w,
            y,
            x + w,
            y + h,
        ).spec_draw_line(x, y + h, x + w, y + h)
    }

    pub open spec fn spec_draw_rect_fill(self, rect: Rect) -> RendererModel {
        self.with_section(
            spec_rect_fill_vertices(rect, self.draw_color),
            PrimitiveType::Triangle,
            None,
        )
    }

    pub open spec fn spec_draw_circle(self, center_x: int, center_y: int, radius: int)
        -> RendererModel {
        let pts = midpoint::spec_circle_points(radius);
        self.with_section(
            Seq::new(
                pts.len(),
                |i: int|
                    spec_color_vertex(
                        2 * (center_x + pts[i].0),
                        2 * (center_y + pts[i].1),
                        self.draw_color,
                    ),
            ),
            PrimitiveType::Point,
            None,
        )
    }

    pub open spec fn spec_draw_fill_circle(self, center_x: int, center_y: int, radius: int)
        -> RendererModel {
        let cols = spec_fill_circle_columns(midpoint::spec_circle_points(radius));
        self.with_section(
            spec_column_vertices(cols, center_x, center_y, self.draw_color),
            PrimitiveType::Line,
            None,
        )
    }

    pub open spec fn spec_draw_texture(
        self,
        texture_id: TextureID,
        draw_rect: Rect,
        clip_rect: Option<Rect>,
    ) -> RendererModel {
        self.with_section(
            spec_texture_quad(
                draw_rect,
                clip_rect,
                self.textures[texture_id@ as int],
                self.texture_blend_color,
            ),
            PrimitiveType::Triangle,
            Some(texture_id),
        )
    }

    pub open spec fn spec_add_texture(self, rgba: Seq<u8>, width: nat, height: nat)
        -> RendererModel {
        RendererModel {
            textures: self.textures.push(TextureModel { width, height, rgba }),
            ..self
        }
    }

    pub open spec fn spec_reload_texture(
        self,
        id: TextureID,
        rgba: Seq<u8>,
        width: nat,
        height: nat,
    ) -> RendererModel {
        RendererModel {
            textures: self.textures.update(id@ as int, TextureModel { width, height, rgba }),
            ..self
        }
    }
}

/// The two endpoints of a line: the start is nudged back by half a pixel on
/// both axes to work around missing pixels in line rasterization.
pub open spec fn spec_line_vertices(x0: int, y0: int, x1: int, y1: int, color: ColorRGBA) -> Seq<
    VertexModel,
> {
    seq![
        spec_color_vertex(2 * x0 - 1, 2 * y0 - 1, color),
        spec_color_vertex(2 * x1, 2 * y1, color),
    ]
}

/// A filled rectangle as two triangles over its four corners.
pub open spec fn spec_rect_fill_vertices(rect: Rect, color: ColorRGBA) -> Seq<VertexModel> {
    let x = rect.x as int;
    let y = rect.y as int;
    let w = rect.w as int;
    let h = rect.h as int;
    let top_left = spec_color_vertex(2 * x, 2 * y, color);
    let top_right = spec_color_vertex(2 * (x + w), 2 * y, color);
    let bottom_left = spec_color_vertex(2 * x, 2 * (y + h), color);
    let bottom_right = spec_color_vertex(2 * (x + w), 2 * (y + h), color);
    seq![top_left, top_right, bottom_left, top_right, bottom_left, bottom_right]
}

/// The columns drawn by a filled circle: of the circle points, keep those in
/// the upper half plane, one per column, first occurrence per `x`.
pub open spec fn spec_fill_circle_columns(pts: Seq<(int, int)>) -> Seq<(int, int)>
    decreases pts.len(),
{
    if pts.len() == 0 {
        Seq::empty()
    } else {
        let rest = spec_fill_circle_columns(pts.drop_last());
        let p = pts.last();
        if p.1 >= 0 && !spec_contains_x(rest, p.0) {
            rest.push(p)
        } else {
            rest
        }
    }
}

pub open spec fn spec_contains_x(pts: Seq<(int, int)>, x: int) -> bool {
    exists|i: int| 0 <= i < pts.len() && pts[i].0 == x
}

/// Each kept column becomes one vertical line from the upper half of the
/// circle to its mirror image on the lower half.
pub open spec fn spec_column_vertices(
    cols: Seq<(int, int)>,
    center_x: int,
    center_y: int,
    color: ColorRGBA,
) -> Seq<VertexModel> {
    Seq::new(
        2 * cols.len(),
        |i: int|
            if i % 2 == 0 {
                spec_color_vertex(
                    2 * (center_x + cols[i / 2].0),
                    2 * (center_y + cols[i / 2].1),
                    color,
                )
            } else {
                spec_color_vertex(
                    2 * (center_x + cols[i / 2].0),
                    2 * (center_y - cols[i / 2].1),
                    color,
                )
            },
    )
}

/// The textured quad of `draw_texture`: two triangles over the draw
/// rectangle. With a clip rectangle, the texture coordinates map the clip to
/// the quad with V flipped (texture origin bottom left, draw origin top
/// left); without one, the whole texture is used.
pub open spec fn spec_texture_quad(
    draw_rect: Rect,
    clip_rect: Option<Rect>,
    texture: TextureModel,
    blend_color: ColorRGBA,
) -> Seq<VertexModel> {
    let x = draw_rect.x as int;
    let y = draw_rect.y as int;
    let w = draw_rect.w as int;
    let h = draw_rect.h as int;
    let uv = match clip_rect {
        Some(clip) => {
            let cx = clip.x as int;
            let cy = clip.y as int;
            let cw = clip.w as int;
            let ch = clip.h as int;
            let tw = texture.width as int;
            let th = texture.height as int;
            // (left u, right u, top v, bottom v, u den, v den)
            (cx, cx + cw, th - cy, th - (cy + ch), tw, th)
        },
        None => (0, 1, 1, 0, 1, 1),
    };
    let top_left = VertexModel {
        x: 2 * x,
        y: 2 * y,
        color: blend_color,
        u_num: uv.0,
        u_den: uv.4,
        v_num: uv.2,
        v_den: uv.5,
    };
    let top_right = VertexModel {
        x: 2 * (x + w),
        y: 2 * y,
        color: blend_color,
        u_num: uv.1,
        u_den: uv.4,
        v_num: uv.2,
        v_den: uv.5,
    };
    let bottom_left = VertexModel {
        x: 2 * x,
        y: 2 * (y + h),
        color: blend_color,
        u_num: uv.0,
        u_den: uv.4,
        v_num: uv.3,
        v_den: uv.5,
    };
    let bottom_right = VertexModel {
        x: 2 * (x + w),
        y: 2 * (y + h),
        color: blend_color,
        u_num: uv.1,
        u_den: uv.4,
        v_num: uv.3,
        v_den: uv.5,
    };
    seq![top_left, top_right, bottom_left, top_right, bottom_left, bottom_right]
}

/// The batched renderer's data: texture table, draw state, per-frame vertex
/// batch with its sections, window size and canvas placement.
pub struct Renderer {
    textures: Vec<TextureData>,
    draw_color: ColorRGBA,
    texture_blend_color: ColorRGBA,
    active_color_key: ColorRGBA,
    vertices: Vec<Vertex>,
    sections: Vec<VertexSection>,
    window_width: u32,
    window_height: u32,
    canvas: Canvas,
}

impl View for Renderer {
    type V = RendererModel;

    closed spec fn view(&self) -> RendererModel {
        RendererModel {
            textures: self.textures@.map_values(|t: TextureData| t@),
            draw_color: self.draw_color,
            texture_blend_color: self.texture_blend_color,
            active_color_key: self.active_color_key,
            vertices: self.vertices@.map_values(|v: Vertex| v@),
            sections: self.sections@.map_values(|s: VertexSection| s@),
            window_width: self.window_width as nat,
            window_height: self.window_height as nat,
            canvas: self.canvas,
        }
    }
}

impl Renderer {
    pub open spec fn wf(self) -> bool {
        self@.wf()
    }

    /// A new renderer: empty texture table and batch, opaque black draw color,
    /// white texture blend color, color key disabled, canvas placed for the
    /// given window size.
    pub fn new(window_width: u32, window_height: u32, canvas_width: u32, canvas_height: u32) -> (r:
        Renderer)
        requires
            1 <= canvas_width <= i32::MAX,
            1 <= canvas_height <= i32::MAX,
            window_width <= i32::MAX,
            window_height <= i32::MAX,
        ensures
            r.wf(),
            r@ == (RendererModel {
                textures: Seq::empty(),
                draw_color: ColorRGBA { r: 0, g: 0, b: 0, a: 255 },
                texture_blend_color: ColorRGBA { r: 255, g: 255, b: 255, a: 255 },
                active_color_key: disabled_color_key(),
                vertices: Seq::empty(),
                sections: Seq::empty(),
                window_width: window_width as nat,
                window_height: window_height as nat,
                canvas: (Canvas {
                    dim: Dimension { width: canvas_width, height: canvas_height },
                    scale: 1,
                    scaled_dim: Dimension { width: canvas_width, height: canvas_height },
                    pos: Point { x: 0, y: 0 },
                }).spec_updated(window_width as int, window_height as int),
            }),
    {
        let canvas = Canvas::new(window_width, window_height, canvas_width, canvas_height);
        let r = Renderer {
            textures: Vec::new(),
            draw_color: ColorRGBA { r: 0, g: 0, b: 0, a: 255 },
            texture_blend_color: ColorRGBA { r: 255, g: 255, b: 255, a: 255 },
            active_color_key: ColorRGBA { r: 0, g: 0, b: 0, a: 0 },
            vertices: Vec::new(),
            sections: Vec::new(),
            window_width,
            window_height,
            canvas,
        };
        proof {
            assert(r@.sections =~= Seq::<SectionModel>::empty());
            assert(r@.vertices =~= Seq::<VertexModel>::empty());
            assert(r@.textures =~= Seq::<TextureModel>::empty());
            assert(r@ =~= (RendererModel {
                textures: Seq::empty(),
                draw_color: ColorRGBA { r: 0, g: 0, b: 0, a: 255 },
                texture_blend_color: ColorRGBA { r: 255, g: 255, b: 255, a: 255 },
                active_color_key: disabled_color_key(),
                vertices: Seq::empty(),
                sections: Seq::empty(),
                window_width: window_width as nat,
                window_height: window_height as nat,
                canvas,
            }));
        }
        r
    }

    /// Recomputes the canvas placement from the current window size. The
    /// caller then submits the batch: first the sections in order into the
    /// canvas, then the canvas scaled into the viewport at `canvas().pos`.
    pub fn render(&mut self)
        requires
            old(self).wf(),
        ensures
            final(self).wf(),
            final(self)@ == (RendererModel {
                canvas: old(self)@.canvas.spec_updated(
                    old(self)@.window_width as int,
                    old(self)@.window_height as int,
                ),
                ..old(self)@
            }),
    {
        let window_width = self.window_width;
        let window_height = self.window_height;
        self.canvas.update(window_width, window_height);
        proof {
            assert(self@ =~= (RendererModel {
                canvas: old(self)@.canvas.spec_updated(
                    old(self)@.window_width as int,
                    old(self)@.window_height as int,
                ),
                ..old(self)@
            }));
        }
    }

    pub fn canvas(&self) -> (r: &Canvas)
        ensures
            *r == self@.canvas,
    {
        &self.canvas
    }

    /// Records the new window size; the canvas placement changes at the next
    /// `render`.
    pub fn on_window_resize(&mut self, width: u32, height: u32)
        requires
            old(self).wf(),
            width <= i32::MAX,
            height <= i32::MAX,
        ensures
            final(self).wf(),
            final(self)@ == (RendererModel {
                window_width: width as nat,
                window_height: height as nat,
                ..old(self)@
            }),
    {
        self.window_width = width;
        self.window_height = height;
        proof {
            assert(self@ =~= (RendererModel {
                window_width: width as nat,
                window_height: height as nat,
                ..old(self)@
            }));
        }
    }

    /// Registers a new texture from raw RGBA8 bytes and returns its fresh ID.
    pub fn add_texture(&mut self, rgba_data: &[u8], width: u32, height: u32) -> (r: TextureID)
        requires
            old(self).wf(),
            old(self)@.textures.len() < u32::MAX,
            rgba_data@.len() == 4 * width * height,
            width <= i32::MAX,
            height <= i32::MAX,
        ensures
            final(self).wf(),
            r@ == old(self)@.textures.len(),
            final(self)@ == old(self)@.spec_add_texture(
                rgba_data@,
                width as nat,
                height as nat,
            ),
    {
        let id = TextureID(self.textures.len() as u32);
        self.textures.push(TextureData { width, height, rgba: slice_to_vec(rgba_data) });
        proof {
            assert(self@ =~= old(self)@.spec_add_texture(rgba_data@, width as nat, height as nat));
        }
        id
    }

    /// Replaces the pixel data behind an existing ID: the ID itself and every
    /// other texture are untouched, so call sites holding the ID now render
    /// the new content.
    pub fn reload_texture(&mut self, id: TextureID, rgba_data: &[u8], width: u32, height: u32)
        requires
            old(self).wf(),
            old(self)@.valid_texture(id),
            rgba_data@.len() == 4 * width * height,
            width <= i32::MAX,
            height <= i32::MAX,
        ensures
            final(self).wf(),
            final(self)@ == old(self)@.spec_reload_texture(
                id,
                rgba_data@,
                width as nat,
                height as nat,
            ),
    {
        let slot = &mut self.textures[id.0 as usize];
        slot.width = width;
        slot.height = height;
        slot.rgba = slice_to_vec(rgba_data);
        proof {
            assert(self@ =~= old(self)@.spec_reload_texture(
                id,
                rgba_data@,
                width as nat,
                height as nat,
            ));
        }
    }

    /// Resets the draw color to opaque black and empties the batch; called
    /// once per frame before drawing.
    pub fn clear(&mut self)
        requires
            old(self).wf(),
        ensures
            final(self).wf(),
            final(self)@ == old(self)@.spec_clear(),
    {
        self.draw_color = ColorRGBA { r: 0, g: 0, b: 0, a: 255 };
        self.vertices.clear();
        self.sections.clear();
        proof {
            assert(self@.vertices =~= Seq::<VertexModel>::empty());
            assert(self@.sections =~= Seq::<SectionModel>::empty());
            assert(self@ =~= old(self)@.spec_clear());
        }
    }

    pub fn set_draw_color(&mut self, r: u8, g: u8, b: u8, a: u8)
        requires
            old(self).wf(),
        ensures
            final(self).wf(),
            final(self)@ == old(self)@.spec_set_draw_color(ColorRGBA { r, g, b, a }),
    {
        self.draw_color = ColorRGBA { r, g, b, a };
        proof {
            assert(self@ =~= old(self)@.spec_set_draw_color(ColorRGBA { r, g, b, a }));
        }
    }

    pub fn set_texture_blend_color(&mut self, r: u8, g: u8, b: u8, a: u8)
        requires
            old(self).wf(),
        ensures
            final(self).wf(),
            final(self)@ == old(self)@.spec_set_texture_blend_color(ColorRGBA { r, g, b, a }),
    {
        self.texture_blend_color = ColorRGBA { r, g, b, a };
        proof {
            assert(self@ =~= old(self)@.spec_set_texture_blend_color(ColorRGBA { r, g, b, a }));
        }
    }

    /// Marks the given RGB value as fully transparent for the draws that
    /// follow, until `disable_color_key` is called.
    pub fn set_color_key(&mut self, r: u8, g: u8, b: u8)
        requires
            old(self).wf(),
        ensures
            final(self).wf(),
            final(self)@ == old(self)@.spec_set_color_key(r, g, b),
    {
        self.active_color_key = ColorRGBA { r, g, b, a: 255 };
        proof {
            assert(self@ =~= old(self)@.spec_set_color_key(r, g, b));
        }
    }

    pub fn disable_color_key(&mut self)
        requires
            old(self).wf(),
        ensures
            final(self).wf(),
            final(self)@ == old(self)@.spec_disable_color_key(),
    {
        self.active_color_key = ColorRGBA { r: 0, g: 0, b: 0, a: 0 };
        proof {
            assert(self@ =~= old(self)@.spec_disable_color_key());
        }
    }

    pub fn draw_point(&mut self, x: i32, y: i32)
        requires
            old(self).wf(),
        ensures
            final(self).wf(),
            final(self)@ == old(self)@.spec_draw_point(x as int, y as int),
    {
        let vertex = color_vertex(2 * (x as i64), 2 * (y as i64), self.draw_color);
        self.vertices.push(vertex);
        let section = VertexSection {
            length: 1,
            primitive: PrimitiveType::Point,
            texture: None,
            color_key: self.active_color_key,
        };
        self.sections.push(section);
        proof {
            lemma_sections_push(old(self)@.sections, section@);
            assert(self@.vertices =~= old(self)@.vertices + seq![vertex@]);
            assert(self@ =~= old(self)@.spec_draw_point(x as int, y as int));
        }
    }

    pub fn draw_line(&mut self, x0: i32, y0: i32, x1: i32, y1: i32)
        requires
            old(self).wf(),
        ensures
            final(self).wf(),
            final(self)@ == old(self)@.spec_draw_line(x0 as int, y0 as int, x1 as int, y1 as int),
    {
        let color = self.draw_color;
        // offset the start slightly to get around missing pixels
        let start = color_vertex(2 * (x0 as i64) - 1, 2 * (y0 as i64) - 1, color);
        let end = color_vertex(2 * (x1 as i64), 2 * (y1 as i64), color);
        self.vertices.push(start);
        self.vertices.push(end);
        let section = VertexSection {
            length: 2,
            primitive: PrimitiveType::Line,
            texture: None,
            color_key: self.active_color_key,
        };
        self.sections.push(section);
        proof {
            lemma_sections_push(old(self)@.sections, section@);
            assert(self@.vertices =~= old(self)@.vertices + seq![start@, end@]);
            assert(self@ =~= old(self)@.spec_draw_line(
                x0 as int,
                y0 as int,
                x1 as int,
                y1 as int,
            ));
        }
    }

    /// The rectangle outline, drawn as its four edge lines.
    pub fn draw_rect(&mut self, rect: Rect)
        requires
            old(self).wf(),
            rect.w <= i32::MAX,
            rect.h <= i32::MAX,
            rect.x + rect.w <= i32::MAX,
            rect.y + rect.h <= i32::MAX,
        ensures
            final(self).wf(),
            final(self)@ == old(self)@.spec_draw_rect(rect),
    {
        let (x, y, w, h) = (rect.x, rect.y, rect.w as i32, rect.h as i32);
        self.draw_line(x, y, x + w, y);  // top line
        self.draw_line(x, y, x, y + h);  // left line
        self.draw_line(x + w, y, x + w, y + h);  // right line
        self.draw_line(x, y + h, x + w, y + h);  // bottom line
    }

    pub fn draw_rect_fill(&mut self, rect: Rect)
        requires
            old(self).wf(),
        ensures
            final(self).wf(),
            final(self)@ == old(self)@.spec_draw_rect_fill(rect),
    {
        let (x, y, w, h) = (rect.x as i64, rect.y as i64, rect.w as i64, rect.h as i64);
        let color = self.draw_color;

        let top_left = color_vertex(2 * x, 2 * y, color);
        let top_right = color_vertex(2 * (x + w), 2 * y, color);
        let bottom_left = color_vertex(2 * x, 2 * (y + h), color);
        let bottom_right = color_vertex(2 * (x + w), 2 * (y + h), color);

        // first triangle
        self.vertices.push(top_left);
        self.vertices.push(top_right);
        self.vertices.push(bottom_left);

        // second triangle
        self.vertices.push(top_right);
        self.vertices.push(bottom_left);
        self.vertices.push(bottom_right);

        let section = VertexSection {
            length: 6,
            primitive: PrimitiveType::Triangle,
            texture: None,
            color_key: self.active_color_key,
        };
        self.sections.push(section);
        proof {
            lemma_sections_push(old(self)@.sections, section@);
            assert(self@.vertices =~= old(self)@.vertices + spec_rect_fill_vertices(
                rect,
                old(self)@.draw_color,
            ));
            assert(self@ =~= old(self)@.spec_draw_rect_fill(rect));
        }
    }

    /// The circle outline as a cloud of points from the midpoint circle
    /// algorithm.
    #[verifier::loop_isolation(false)]
    pub fn draw_circle(&mut self, center_x: i32, center_y: i32, radius: u32)
        requires
            old(self).wf(),
            radius <= i32::MAX,
            center_x - radius >= i32::MIN,
            center_x + radius <= i32::MAX,
            center_y - radius >= i32::MIN,
            center_y + radius <= i32::MAX,
        ensures
            final(self).wf(),
            final(self)@ == old(self)@.spec_draw_circle(
                center_x as int,
                center_y as int,
                radius as int,
            ),
    {
        let points = midpoint::circle_points(radius);
        let color = self.draw_color;
        let ghost pts = midpoint::spec_circle_points(radius as int);
        let ghost verts = Seq::new(
            pts.len(),
            |i: int|
                spec_color_vertex(
                    2 * (center_x + pts[i].0),
                    2 * (center_y + pts[i].1),
                    color,
                ),
        );
        let mut idx: usize = 0;
        while idx < points.len()
            invariant
                old(self).wf(),
                points@.len() == pts.len(),
                forall|i: int|
                    0 <= i < pts.len() ==> points@[i].0 == pts[i].0 && points@[i].1 == pts[i].1,
                forall|i: int|
                    0 <= i < pts.len() ==> midpoint::in_circle_range(radius as int, pts[i]),
                idx <= pts.len(),
                color == old(self)@.draw_color,
                self@ == (RendererModel {
                    vertices: old(self)@.vertices + verts.take(idx as int),
                    ..old(self)@
                }),
            decreases pts.len() - idx,
        {
            let (px, py) = points[idx];
            let vertex = color_vertex(
                2 * (center_x as i64 + px as i64),
                2 * (center_y as i64 + py as i64),
                color,
            );
            let ghost m0 = self@;
            self.vertices.push(vertex);
            proof {
                assert(px as int == pts[idx as int].0 && py as int == pts[idx as int].1);
                assert(vertex@ =~= verts[idx as int]);
                assert(verts.take(idx as int + 1) =~= verts.take(idx as int).push(vertex@));
                assert(self@.vertices =~= m0.vertices.push(vertex@));
                assert(self@ =~= (RendererModel {
                    vertices: old(self)@.vertices + verts.take(idx as int + 1),
                    ..old(self)@
                }));
            }
            idx += 1;
        }
        let length = points.len();
        let section = VertexSection {
            length,
            primitive: PrimitiveType::Point,
            texture: None,
            color_key: self.active_color_key,
        };
        self.sections.push(section);
        proof {
            lemma_sections_push(old(self)@.sections, section@);
            assert(verts.take(pts.len() as int) =~= verts);
            assert(self@ =~= old(self)@.spec_draw_circle(
                center_x as int,
                center_y as int,
                radius as int,
            ));
        }
    }

    /// A filled circle as vertical scanlines: one line per column of the
    /// upper half circle down to its mirrored lower point, columns taken once
    /// each so overlapping lines do not double-blend.
    #[verifier::loop_isolation(false)]
    pub fn draw_fill_circle(&mut self, center_x: i32, center_y: i32, radius: u32)
        requires
            old(self).wf(),
            radius <= i32::MAX,
            center_x - radius >= i32::MIN,
            center_x + radius <= i32::MAX,
            center_y - radius >= i32::MIN,
            center_y + radius <= i32::MAX,
        ensures
            final(self).wf(),
            final(self)@ == old(self)@.spec_draw_fill_circle(
                center_x as int,
                center_y as int,
                radius as int,
            ),
    {
        let points = midpoint::circle_points(radius);
        let color = self.draw_color;
        let base_len = self.vertices.len();
        let ghost pts = midpoint::spec_circle_points(radius as int);
        let mut seen_x: Vec<i32> = Vec::new();
        let mut count: usize = 0;
        let ghost base = self@;
        let mut idx: usize = 0;
        while idx < points.len()
            invariant
                old(self).wf(),
                base == old(self)@,
                points@.len() == pts.len(),
                forall|i: int|
                    0 <= i < pts.len() ==> points@[i].0 == pts[i].0 && points@[i].1 == pts[i].1,
                forall|i: int|
                    0 <= i < pts.len() ==> midpoint::in_circle_range(radius as int, pts[i]),
                idx <= pts.len(),
                color == base.draw_color,
                ({
                    let cols = spec_fill_circle_columns(pts.take(idx as int));
                    &&& count == cols.len()
                    &&& seen_x@.len() == cols.len()
                    &&& (forall|i: int|
                        0 <= i < cols.len() ==> seen_x@[i] as int == cols[i].0)
                    &&& (forall|x: int|
                        spec_contains_x(cols, x) <==> exists|i: int|
                            0 <= i < seen_x@.len() && #[trigger] seen_x@[i] as int == x)
                    &&& self@ == (RendererModel {
                        vertices: base.vertices + spec_column_vertices(
                            cols,
                            center_x as int,
                            center_y as int,
                            color,
                        ),
                        ..base
                    })
                    &&& count <= idx
                    &&& base.vertices.len() == base_len
                }),
            decreases pts.len() - idx,
        {
            let ghost cols = spec_fill_circle_columns(pts.take(idx as int));
            let (px, py) = points[idx];
            proof {
                assert(pts.take(idx as int + 1).drop_last() =~= pts.take(idx as int));
            }
            if py >= 0 {
                let mut already: bool = false;
                let mut j: usize = 0;
                while j < seen_x.len()
                    invariant
                        j <= seen_x@.len(),
                        forall|i: int| 0 <= i < cols.len() ==> seen_x@[i] as int == cols[i].0,
                        seen_x@.len() == cols.len(),
                        already <==> exists|i: int| 0 <= i < j && seen_x@[i] == px,
                    decreases seen_x@.len() - j,
                {
                    if seen_x[j] == px {
                        already = true;
                    }
                    j += 1;
                }
                proof {
                    if already {
                        let i = choose|i: int| 0 <= i < seen_x@.len() && seen_x@[i] == px;
                        assert(cols[i].0 == px as int);
                        assert(spec_contains_x(cols, px as int));
                    }
                    if spec_contains_x(cols, px as int) {
                        let i = choose|i: int| 0 <= i < cols.len() && cols[i].0 == px as int;
                        assert(seen_x@[i] as int == px as int);
                        assert(already);
                    }
                }
                if !already {
                    let top = color_vertex(
                        2 * (center_x as i64 + px as i64),
                        2 * (center_y as i64 + py as i64),
                        color,
                    );
                    let bottom = color_vertex(
                        2 * (center_x as i64 + px as i64),
                        2 * (center_y as i64 - py as i64),
                        color,
                    );
                    let ghost prev_seen = seen_x@;
                    let ghost m0 = self@;
                    self.vertices.push(top);
                    self.vertices.push(bottom);
                    seen_x.push(px);
                    count += 1;
                    proof {
                        let cols2 = spec_fill_circle_columns(pts.take(idx as int + 1));
                        assert(pts.take(idx as int + 1).last() == pts[idx as int]);
                        assert(cols2 =~= cols.push(pts[idx as int]));
                        assert(px as int == pts[idx as int].0 && py as int == pts[idx as int].1);
                        assert(top@ =~= spec_color_vertex(
                            2 * (center_x as int + cols2[cols2.len() - 1].0),
                            2 * (center_y as int + cols2[cols2.len() - 1].1),
                            color,
                        ));
                        assert(bottom@ =~= spec_color_vertex(
                            2 * (center_x as int + cols2[cols2.len() - 1].0),
                            2 * (center_y as int - cols2[cols2.len() - 1].1),
                            color,
                        ));
                        assert(spec_column_vertices(cols2, center_x as int, center_y as int, color)
                            =~= spec_column_vertices(
                            cols,
                            center_x as int,
                            center_y as int,
                            color,
                        ) + seq![top@, bottom@]);
                        assert(self@.vertices =~= m0.vertices + seq![top@, bottom@]);
                        assert(self@ =~= (RendererModel {
                            vertices: base.vertices + spec_column_vertices(
                                cols2,
                                center_x as int,
                                center_y as int,
                                color,
                            ),
                            ..base
                        }));
                        assert forall|x: int|
                            spec_contains_x(cols2, x) implies exists|i: int|
                            0 <= i < seen_x@.len() && #[trigger] seen_x@[i] as int == x by {
                            let j = choose|j: int| 0 <= j < cols2.len() && cols2[j].0 == x;
                            if j < cols.len() {
                                assert(cols[j].0 == x);
                                assert(spec_contains_x(cols, x));
                                let i = choose|i: int|
                                    0 <= i < prev_seen.len() && prev_seen[i] as int == x;
                                assert(seen_x@[i] as int == x);
                            } else {
                                assert(seen_x@[seen_x@.len() - 1] as int == x);
                            }
                        }
                        assert forall|x: int|
                            (exists|i: int|
                                0 <= i < seen_x@.len() && #[trigger] seen_x@[i] as int == x)
                            implies spec_contains_x(cols2, x) by {
                            let i = choose|i: int|
                                0 <= i < seen_x@.len() && seen_x@[i] as int == x;
                            if i < prev_seen.len() {
                                assert(prev_seen[i] as int == x);
                                assert(spec_contains_x(cols, x));
                                let j = choose|j: int| 0 <= j < cols.len() && cols[j].0 == x;
                                assert(cols2[j].0 == x);
                            } else {
                                assert(cols2[cols2.len() - 1].0 == x);
                            }
                        }
                    }
                } else {
                    proof {
                        assert(spec_fill_circle_columns(pts.take(idx as int + 1)) =~= cols);
                    }
                }
            } else {
                proof {
                    assert(spec_fill_circle_columns(pts.take(idx as int + 1)) =~= cols);
                }
            }
            idx += 1;
        }
        proof {
            let cols = spec_fill_circle_columns(pts.take(idx as int));
            assert(self@.vertices.len() == base.vertices.len() + spec_column_vertices(
                cols,
                center_x as int,
                center_y as int,
                color,
            ).len());
            assert(self.vertices@.len() == self@.vertices.len());
            assert(self.vertices@.len() == base_len + 2 * cols.len());
        }
        let length = self.vertices.len() - base_len;
        let section = VertexSection {
            length,
            primitive: PrimitiveType::Line,
            texture: None,
            color_key: self.active_color_key,
        };
        self.sections.push(section);
        proof {
            assert(pts.take(pts.len() as int) =~= pts);
            lemma_sections_push(base.sections, section@);
            assert(self@ =~= base.spec_draw_fill_circle(
                center_x as int,
                center_y as int,
                radius as int,
            ));
        }
    }

    /// Draws a texture onto the quad `draw_rect`; `clip_rect` selects the
    /// portion of the texture to use, or the whole texture if `None`.
    pub fn draw_texture(&mut self, texture_id: TextureID, draw_rect: Rect, clip_rect: Option<Rect>)
        requires
            old(self).wf(),
            old(self)@.valid_texture(texture_id),
            clip_rect is Some ==> old(self)@.textures[texture_id@ as int].width >= 1
                && old(self)@.textures[texture_id@ as int].height >= 1,
        ensures
            final(self).wf(),
            final(self)@ == old(self)@.spec_draw_texture(texture_id, draw_rect, clip_rect),
    {
        let (draw_x, draw_y, draw_w, draw_h) = (
            draw_rect.x as i64,
            draw_rect.y as i64,
            draw_rect.w as i64,
            draw_rect.h as i64,
        );
        let blend_color = self.texture_blend_color;

        let (u_left, u_right, v_top, v_bottom, u_den, v_den): (i64, i64, i64, i64, u32, u32) =
            match clip_rect {
            Some(clip) => {
                let texture = &self.textures[texture_id.0 as usize];
                let (tex_w, tex_h) = (texture.width, texture.height);
                let (clip_x, clip_y, clip_w, clip_h) = (
                    clip.x as i64,
                    clip.y as i64,
                    clip.w as i64,
                    clip.h as i64,
                );
                (
                    clip_x,
                    clip_x + clip_w,
                    tex_h as i64 - clip_y,
                    tex_h as i64 - (clip_y + clip_h),
                    tex_w,
                    tex_h,
                )
            },
            None => (0, 1, 1, 0, 1, 1),
        };

        let top_left = Vertex {
            x: 2 * draw_x,
            y: 2 * draw_y,
            color: blend_color,
            u_num: u_left,
            u_den,
            v_num: v_top,
            v_den,
        };
        let top_right = Vertex {
            x: 2 * (draw_x + draw_w),
            y: 2 * draw_y,
            color: blend_color,
            u_num: u_right,
            u_den,
            v_num: v_top,
            v_den,
        };
        let bottom_left = Vertex {
            x: 2 * draw_x,
            y: 2 * (draw_y + draw_h),
            color: blend_color,
            u_num: u_left,
            u_den,
            v_num: v_bottom,
            v_den,
        };
        let bottom_right = Vertex {
            x: 2 * (draw_x + draw_w),
            y: 2 * (draw_y + draw_h),
            color: blend_color,
            u_num: u_right,
            u_den,
            v_num: v_bottom,
            v_den,
        };

        // first triangle
        self.vertices.push(top_left);
        self.vertices.push(top_right);
        self.vertices.push(bottom_left);

        // second triangle
        self.vertices.push(top_right);
        self.vertices.push(bottom_left);
        self.vertices.push(bottom_right);

        let section = VertexSection {
            length: 6,
            primitive: PrimitiveType::Triangle,
            texture: Some(texture_id),
            color_key: self.active_color_key,
        };
        self.sections.push(section);
        proof {
            lemma_sections_push(old(self)@.sections, section@);
            assert(self@.vertices =~= old(self)@.vertices + spec_texture_quad(
                draw_rect,
                clip_rect,
                old(self)@.textures[texture_id@ as int],
                old(self)@.texture_blend_color,
            ));
            assert(self@ =~= old(self)@.spec_draw_texture(texture_id, draw_rect, clip_rect));
        }
    }

    /// Resizes the virtual canvas; the scaled size and position follow at the
    /// next `render`.
    pub fn set_resolution(&mut self, resolution_width: u32, resolution_height: u32)
        requires
            old(self).wf(),
            1 <= resolution_width <= i32::MAX,
            1 <= resolution_height <= i32::MAX,
        ensures
            final(self).wf(),
            final(self)@ == (RendererModel {
                canvas: Canvas {
                    dim: Dimension { width: resolution_width, height: resolution_height },
                    ..old(self)@.canvas
                },
                ..old(self)@
            }),
    {
        self.canvas.dim.width = resolution_width;
        self.canvas.dim.height = resolution_height;
        proof {
            assert(self@ =~= (RendererModel {
                canvas: Canvas {
                    dim: Dimension { width: resolution_width, height: resolution_height },
                    ..old(self)@.canvas
                },
                ..old(self)@
            }));
        }
    }

    /// Whether a texture ID is registered.
    pub fn has_texture(&self, id: TextureID) -> (r: bool)
        ensures
            r == self@.valid_texture(id),
    {
        (id.0 as usize) < self.textures.len()
    }

    pub fn sections(&self) -> (r: &Vec<VertexSection>)
        ensures
            r@.map_values(|s: VertexSection| s@) == self@.sections,
    {
        &self.sections
    }

    pub fn vertices(&self) -> (r: &Vec<Vertex>)
        ensures
            r@.map_values(|v: Vertex| v@) == self@.vertices,
    {
        &self.vertices
    }

    pub fn textures(&self) -> (r: &Vec<TextureData>)
        ensures
            r@.map_values(|t: TextureData| t@) == self@.textures,
    {
        &self.textures
    }

    pub fn draw_color(&self) -> (r: ColorRGBA)
        ensures
            r == self@.draw_color,
    {
        self.draw_color
    }

    pub fn texture_blend_color(&self) -> (r: ColorRGBA)
        ensures
            r == self@.texture_blend_color,
    {
        self.texture_blend_color
    }

    pub fn active_color_key(&self) -> (r: ColorRGBA)
        ensures
            r == self@.active_color_key,
    {
        self.active_color_key
    }
}

fn color_vertex(x_half: i64, y_half: i64, color: ColorRGBA) -> (r: Vertex)
    ensures
        r@ == spec_color_vertex(x_half as int, y_half as int, color),
{
    Vertex { x: x_half, y: y_half, color, u_num: 0, u_den: 1, v_num: 0, v_den: 1 }
}

/// Copies a byte slice into an owned vector.
fn slice_to_vec(data: &[u8]) -> (r: Vec<u8>)
    ensures
        r@ == data@,
{
    let mut out: Vec<u8> = Vec::new();
    let mut i: usize = 0;
    while i < data.len()
        invariant
            i <= data@.len(),
            out@ == data@.take(i as int),
        decreases data@.len() - i,
    {
        out.push(data[i]);
        proof {
            assert(data@.take(i as int + 1) =~= data@.take(i as int).push(data@[i as int]));
        }
        i += 1;
    }
    proof {
        assert(data@.take(data@.len() as int) =~= data@);
    }
    out
}

/// Law: texture IDs are stable across reload. Reloading pixel data behind an
/// ID keeps the ID valid, stores exactly the new content under it, leaves
/// every other texture untouched, and a later draw through the same ID emits
/// the quad computed from the new content.
pub proof fn lemma_texture_id_stable_across_reload(
    m: RendererModel,
    id: TextureID,
    rgba: Seq<u8>,
    width: nat,
    height: nat,
    draw_rect: Rect,
    clip_rect: Option<Rect>,
)
    requires
        m.valid_texture(id),
    ensures
        ({
            let reloaded = m.spec_reload_texture(id, rgba, width, height);
            &&& reloaded.valid_texture(id)
            &&& reloaded.textures[id@ as int] == (TextureModel { width, height, rgba })
            &&& forall|other: int|
                0 <= other < m.textures.len() && other != id@ as int
                    ==> #[trigger] reloaded.textures[other] == m.textures[other]
            &&& reloaded.spec_draw_texture(id, draw_rect, clip_rect).sections.last()
                == (SectionModel {
                length: 6,
                primitive: PrimitiveType::Triangle,
                texture: Some(id),
                color_key: m.active_color_key,
            })
            &&& reloaded.spec_draw_texture(id, draw_rect, clip_rect).vertices
                == reloaded.vertices + spec_texture_quad(
                draw_rect,
                clip_rect,
                TextureModel { width, height, rgba },
                m.texture_blend_color,
            )
        }),
{
    let reloaded = m.spec_reload_texture(id, rgba, width, height);
    assert(reloaded.textures[id@ as int] =~= (TextureModel { width, height, rgba }));
    assert(spec_texture_quad(
        draw_rect,
        clip_rect,
        reloaded.textures[id@ as int],
        m.texture_blend_color,
    ).len() == 6);
}

/// Law: the canvas is scaled uniformly and centered. The scaled size is the
/// logical size times one common integer scale of at least 1, and whenever
/// the scaled canvas fits the window, the margins on the two sides of each
/// axis differ by at most one pixel.
pub proof fn lemma_canvas_uniform_and_centered(c: Canvas, window_w: int, window_h: int)
    requires
        c.wf(),
        0 <= window_w <= i32::MAX,
        0 <= window_h <= i32::MAX,
    ensures
        ({
            let u = c.spec_updated(window_w, window_h);
            &&& u.scale >= 1
            &&& u.dim == c.dim
            &&& u.scaled_dim.width == u.scale * u.dim.width
            &&& u.scaled_dim.height == u.scale * u.dim.height
            &&& (window_w >= u.scaled_dim.width ==> {
                let right = window_w - u.pos.x - u.scaled_dim.width;
                &&& 0 <= u.pos.x
                &&& u.pos.x <= right <= u.pos.x + 1
            })
            &&& (window_h >= u.scaled_dim.height ==> {
                let below = window_h - u.pos.y - u.scaled_dim.height;
                &&& 0 <= u.pos.y
                &&& u.pos.y <= below <= u.pos.y + 1
            })
        }),
{
    lemma_scaled_dim_bounded(window_w, window_h, c.dim);
    let u = c.spec_updated(window_w, window_h);
    if window_w >= u.scaled_dim.width {
        vstd::arithmetic::div_mod::lemma_fundamental_div_mod(window_w - u.scaled_dim.width, 2);
        vstd::arithmetic::div_mod::lemma_mod_bound(window_w - u.scaled_dim.width, 2);
    }
    if window_h >= u.scaled_dim.height {
        vstd::arithmetic::div_mod::lemma_fundamental_div_mod(window_h - u.scaled_dim.height, 2);
        vstd::arithmetic::div_mod::lemma_mod_bound(window_h - u.scaled_dim.height, 2);
    }
}

/// Appending a section adds its length to the tiling count.
proof fn lemma_sections_push(sections: Seq<SectionModel>, s: SectionModel)
    ensures
        sections_vertex_count(sections.push(s)) == sections_vertex_count(sections) + s.length,
{
    assert(sections.push(s).drop_last() =~= sections);
}

} // verus!

//! Sprite sheets: a texture plus an ordered list of clip rectangles and an
//! optional transparent color key, bound to a stable `SpriteSheetID`.
//! Drawing a frame routes through the renderer and never leaks the sheet's
//! color key into later draws.

use vstd::prelude::*;

use crate::geometry::Rect;
use crate::renderer::{disabled_color_key, ColorRGBA, Renderer, RendererModel, TextureID};

verus! {

/// Opaque handle for one sprite sheet, minted by
/// [`SpriteSystem::add_spritesheet`], never reused, and kept valid by
/// [`SpriteSystem::reload_sprite_sheet`].
#[derive(Debug, Clone, Copy, PartialEq, Eq, Hash, Structural)]
pub struct SpriteSheetID(u32);

impl View for SpriteSheetID {
    type V = nat;

    closed spec fn view(&self) -> nat {
        self.0 as nat
    }
}

#[derive(Debug)]
pub struct SpriteSheetData {
    pub texture_id: TextureID,
    pub sprites: Vec<Rect>,
    pub color_key: Option<(u8, u8, u8)>,
}

/// Mathematical model of one sprite sheet.
#[verifier::ext_equal]
pub ghost struct SpriteSheetModel {
    pub texture_id: TextureID,
    pub sprites: Seq<Rect>,
    pub color_key: Option<(u8, u8, u8)>,
}

impl View for SpriteSheetData {
    type V = SpriteSheetModel;

    open spec fn view(&self) -> SpriteSheetModel {
        SpriteSheetModel {
            texture_id: self.texture_id,
            sprites: self.sprites@,
            color_key: self.color_key,
        }
    }
}

/// The destination size of a sprite drawn with scale `num / den`: the clip
/// size times the scale, rounded half away from zero, saturating at the
/// largest expressible size.
pub open spec fn spec_scaled_len(len: nat, num: nat, den: nat) -> int
    recommends
        den >= 1,
{
    let rounded = (2 * len * num + den) as int / (2 * den) as int;
    if rounded > u32::MAX {
        u32::MAX as int
    } else {
        rounded
    }
}

/// How `draw_sprite` changes the renderer: the sheet's color key (if any) is
/// set, the frame's clip rectangle is drawn as a texture quad scaled by the
/// current sprite scale, and the color key is disabled again.
pub open spec fn spec_draw_sprite(
    renderer: RendererModel,
    sheet: SpriteSheetModel,
    sprite_index: int,
    x: int,
    y: int,
    scale_num: nat,
    scale_den: nat,
) -> RendererModel {
    let keyed = match sheet.color_key {
        Some(key) => renderer.spec_set_color_key(key.0, key.1, key.2),
        None => renderer,
    };
    let sprite_rect = sheet.sprites[sprite_index];
    let draw_rect = Rect {
        x: x as i32,
        y: y as i32,
        w: spec_scaled_len(sprite_rect.w as nat, scale_num, scale_den) as u32,
        h: spec_scaled_len(sprite_rect.h as nat, scale_num, scale_den) as u32,
    };
    keyed.spec_draw_texture(sheet.texture_id, draw_rect, Some(sprite_rect)).spec_disable_color_key()
}

/// Owns the sprite sheet table and the process-wide sprite scale, a rational
/// `scaling_num / scaling_den` applied to the output size of the draws that
/// follow.
pub struct SpriteSystem {
    sprite_sheets: Vec<SpriteSheetData>,
    scaling_num: u32,
    scaling_den: u32,
}

/// Mathematical model of the sprite system.
#[verifier::ext_equal]
pub ghost struct SpriteSystemModel {
    pub sprite_sheets: Seq<SpriteSheetModel>,
    pub scaling_num: nat,
    pub scaling_den: nat,
}

impl View for SpriteSystem {
    type V = SpriteSystemModel;

    closed spec fn view(&self) -> SpriteSystemModel {
        SpriteSystemModel {
            sprite_sheets: self.sprite_sheets@.map_values(|s: SpriteSheetData| s@),
            scaling_num: self.scaling_num as nat,
            scaling_den: self.scaling_den as nat,
        }
    }
}

impl SpriteSystem {
    pub open spec fn wf(self) -> bool {
        &&& self@.scaling_den >= 1
        &&& self@.sprite_sheets.len() <= u32::MAX
    }

    /// A valid sheet handle.
    pub open spec fn valid_id(self, id: SpriteSheetID) -> bool {
        id@ < self@.sprite_sheets.len()
    }

    pub fn new() -> (r: SpriteSystem)
        ensures
            r.wf(),
            r@ == (SpriteSystemModel {
                sprite_sheets: Seq::empty(),
                scaling_num: 1nat,
                scaling_den: 1nat,
            }),
    {
        let r = SpriteSystem { sprite_sheets: Vec::new(), scaling_num: 1, scaling_den: 1 };
        proof {
            assert(r@ =~= (SpriteSystemModel {
                sprite_sheets: Seq::empty(),
                scaling_num: 1nat,
                scaling_den: 1nat,
            }));
        }
        r
    }

    /// Binds a texture, the given clip rectangles and an optional color key
    /// under a fresh sheet ID.
    pub fn add_spritesheet(
        &mut self,
        texture: TextureID,
        sprites: &[Rect],
        color_key: Option<(u8, u8, u8)>,
    ) -> (r: SpriteSheetID)
        requires
            old(self).wf(),
            old(self)@.sprite_sheets.len() < u32::MAX,
        ensures
            final(self).wf(),
            r@ == old(self)@.sprite_sheets.len(),
            final(self)@ == (SpriteSystemModel {
                sprite_sheets: old(self)@.sprite_sheets.push(
                    SpriteSheetModel { texture_id: texture, sprites: sprites@, color_key },
                ),
                ..old(self)@
            }),
    {
        let id = SpriteSheetID(self.sprite_sheets.len() as u32);
        let sprite_sheet = SpriteSheetData {
            texture_id: texture,
            sprites: rects_to_vec(sprites),
            color_key,
        };
        self.sprite_sheets.push(sprite_sheet);
        proof {
            assert(self@ =~= (SpriteSystemModel {
                sprite_sheets: old(self)@.sprite_sheets.push(
                    SpriteSheetModel { texture_id: texture, sprites: sprites@, color_key },
                ),
                ..old(self)@
            }));
        }
        id
    }

    /// Replaces an existing sprite sheet in place; used for hot reloading.
    /// The ID and every other sheet are untouched.
    pub fn reload_sprite_sheet(
        &mut self,
        id: SpriteSheetID,
        texture: TextureID,
        sprites: &[Rect],
        color_key: Option<(u8, u8, u8)>,
    )
        requires
            old(self).wf(),
            old(self).valid_id(id),
        ensures
            final(self).wf(),
            final(self)@ == (SpriteSystemModel {
                sprite_sheets: old(self)@.sprite_sheets.update(
                    id@ as int,
                    SpriteSheetModel { texture_id: texture, sprites: sprites@, color_key },
                ),
                ..old(self)@
            }),
    {
        let sprite_sheet = SpriteSheetData {
            texture_id: texture,
            sprites: rects_to_vec(sprites),
            color_key,
        };
        let slot = &mut self.sprite_sheets[id.0 as usize];
        *slot = sprite_sheet;
        proof {
            assert(self@ =~= (SpriteSystemModel {
                sprite_sheets: old(self)@.sprite_sheets.update(
                    id@ as int,
                    SpriteSheetModel { texture_id: texture, sprites: sprites@, color_key },
                ),
                ..old(self)@
            }));
        }
    }

    /// Sets the sprite scale to the rational `num / den`, applied to the
    /// output rectangle of the draws that follow.
    pub fn set_scaling(&mut self, num: u32, den: u32)
        requires
            old(self).wf(),
            den >= 1,
        ensures
            final(self).wf(),
            final(self)@ == (SpriteSystemModel {
                scaling_num: num as nat,
                scaling_den: den as nat,
                ..old(self)@
            }),
    {
        self.scaling_num = num;
        self.scaling_den = den;
        proof {
            assert(self@ =~= (SpriteSystemModel {
                scaling_num: num as nat,
                scaling_den: den as nat,
                ..old(self)@
            }));
        }
    }

    pub fn reset_scaling(&mut self)
        requires
            old(self).wf(),
        ensures
            final(self).wf(),
            final(self)@ == (SpriteSystemModel {
                scaling_num: 1nat,
                scaling_den: 1nat,
                ..old(self)@
            }),
    {
        self.scaling_num = 1;
        self.scaling_den = 1;
        proof {
            assert(self@ =~= (SpriteSystemModel {
                scaling_num: 1nat,
                scaling_den: 1nat,
                ..old(self)@
            }));
        }
    }

    /// Draws frame `sprite_index` of a sheet at `(x, y)`: the sheet's color
    /// key is applied for exactly this draw and disabled again before
    /// returning, so it cannot leak into later draws.
    pub fn draw_sprite(
        &self,
        renderer: &mut Renderer,
        sprite_sheet: SpriteSheetID,
        sprite_index: usize,
        x: i32,
        y: i32,
    )
        requires
            self.wf(),
            old(renderer).wf(),
            self.valid_id(sprite_sheet),
            sprite_index < self@.sprite_sheets[sprite_sheet@ as int].sprites.len(),
            old(renderer)@.valid_texture(self@.sprite_sheets[sprite_sheet@ as int].texture_id),
            old(renderer)@.textures[self@.sprite_sheets[sprite_sheet@ as int].texture_id@ as int].width
                >= 1,
            old(renderer)@.textures[self@.sprite_sheets[sprite_sheet@ as int].texture_id@ as int].height
                >= 1,
        ensures
            final(renderer).wf(),
            final(renderer)@ == spec_draw_sprite(
                old(renderer)@,
                self@.sprite_sheets[sprite_sheet@ as int],
                sprite_index as int,
                x as int,
                y as int,
                self@.scaling_num,
                self@.scaling_den,
            ),
            final(renderer)@.active_color_key == disabled_color_key(),
    {
        let sheet = &self.sprite_sheets[sprite_sheet.0 as usize];
        let sprite_rect = sheet.sprites[sprite_index];

        if let Some((r, g, b)) = sheet.color_key {
            renderer.set_color_key(r, g, b);
        }

        let w = scaled_len(sprite_rect.w, self.scaling_num, self.scaling_den);
        let h = scaled_len(sprite_rect.h, self.scaling_num, self.scaling_den);
        renderer.draw_texture(
            sheet.texture_id,
            Rect { x, y, w, h },
            Some(sprite_rect),
        );

        renderer.disable_color_key();
    }

    /// The number of frames of one sheet; `draw_sprite` takes indices below
    /// this bound, which a reload can change.
    pub fn frame_count(&self, id: SpriteSheetID) -> (r: usize)
        requires
            self.valid_id(id),
        ensures
            r == self@.sprite_sheets[id@ as int].sprites.len(),
    {
        self.sprite_sheets[id.0 as usize].sprites.len()
    }

    /// Whether a sheet ID is registered.
    pub fn has_sheet(&self, id: SpriteSheetID) -> (r: bool)
        ensures
            r == self.valid_id(id),
    {
        (id.0 as usize) < self.sprite_sheets.len()
    }

    /// The number of registered sheets.
    pub fn len(&self) -> (r: usize)
        ensures
            r == self@.sprite_sheets.len(),
    {
        self.sprite_sheets.len()
    }
}

/// The scaled destination size of one clip dimension, exact rational
/// arithmetic rounded half away from zero, saturating at `u32::MAX`.
fn scaled_len(len: u32, num: u32, den: u32) -> (r: u32)
    requires
        den >= 1,
    ensures
        r == spec_scaled_len(len as nat, num as nat, den as nat),
{
    proof {
        assert(0 <= 2 * (len as int) * (num as int) <= 2 * 0xffff_ffff * 0xffff_ffff)
            by (nonlinear_arith)
            requires
                0 <= len as int <= 0xffff_ffff,
                0 <= num as int <= 0xffff_ffff,
        ;
    }
    let wide = (2 * (len as u128) * (num as u128) + den as u128) / (2 * (den as u128));
    if wide > u32::MAX as u128 {
        u32::MAX
    } else {
        wide as u32
    }
}

/// Copies a slice of rectangles into an owned vector.
fn rects_to_vec(data: &[Rect]) -> (r: Vec<Rect>)
    ensures
        r@ == data@,
{
    let mut out: Vec<Rect> = Vec::new();
    let mut i: usize = 0;
    while i < data.len()
        invariant
            i <= data@.len(),
            out@ == data@.take(i as int),
        decreases data@.len() - i,
    {
        out.push(data[i]);
        proof {
            assert(data@.take(i as int + 1) =~= data@.take(i as int).push(data@[i as int]));
        }
        i += 1;
    }
    proof {
        assert(data@.take(data@.len() as int) =~= data@);
    }
    out
}

/// Law: a color-keyed sprite draw does not leak. Immediately after
/// `draw_sprite` the renderer's color key is disabled, and an unrelated
/// filled rectangle drawn next (with any draw color set in between) carries
/// no color key in its section.
pub proof fn lemma_color_key_does_not_leak(
    renderer: RendererModel,
    sheet: SpriteSheetModel,
    sprite_index: int,
    x: int,
    y: int,
    scale_num: nat,
    scale_den: nat,
    draw_color: ColorRGBA,
    rect: Rect,
)
    ensures
        ({
            let after_sprite = spec_draw_sprite(
                renderer,
                sheet,
                sprite_index,
                x,
                y,
                scale_num,
                scale_den,
            );
            let after_rect = after_sprite.spec_set_draw_color(
                draw_color,
            ).spec_draw_rect_fill(rect);
            &&& after_sprite.active_color_key == disabled_color_key()
            &&& after_rect.sections.last().color_key == disabled_color_key()
        }),
{
}

} // verus!

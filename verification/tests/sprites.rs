use pixel_engine::geometry::Rect;
use pixel_engine::renderer::{ColorRGBA, Renderer};
use pixel_engine::sprites::SpriteSystem;

#[test]
fn color_key_draw_does_not_leak() {
    let mut renderer = Renderer::new(800, 600, 200, 150);
    let bytes = [0u8; 4 * 4 * 4];
    let texture_id = renderer.add_texture(&bytes, 4, 4);

    let mut sprites = SpriteSystem::new();
    let frames = [Rect { x: 0, y: 0, w: 4, h: 4 }];
    let sheet_id = sprites.add_spritesheet(texture_id, &frames, Some((255, 0, 255)));

    // a color-keyed sprite draw, followed by an unrelated filled rectangle
    sprites.draw_sprite(&mut renderer, sheet_id, 0, 10, 10);
    renderer.set_draw_color(10, 20, 30, 255);
    renderer.draw_rect_fill(Rect { x: 0, y: 0, w: 5, h: 5 });

    let sections = renderer.sections();
    assert_eq!(sections.len(), 2);
    // the sprite's own section carries the key ...
    assert_eq!(sections[0].color_key, ColorRGBA { r: 255, g: 0, b: 255, a: 255 });
    // ... but nothing leaks into the rectangle drawn after it
    assert_eq!(sections[1].color_key, ColorRGBA { r: 0, g: 0, b: 0, a: 0 });
    assert_eq!(renderer.active_color_key(), ColorRGBA { r: 0, g: 0, b: 0, a: 0 });
}

#[test]
fn sprite_scaling_rounds_the_output_rectangle() {
    let mut renderer = Renderer::new(800, 600, 200, 150);
    let bytes = [0u8; 4 * 16 * 16];
    let texture_id = renderer.add_texture(&bytes, 16, 16);

    let mut sprites = SpriteSystem::new();
    let frames = [Rect { x: 0, y: 0, w: 15, h: 16 }];
    let sheet_id = sprites.add_spritesheet(texture_id, &frames, None);

    // scale 3/2: 15 * 1.5 = 22.5 rounds away from zero to 23
    sprites.set_scaling(3, 2);
    sprites.draw_sprite(&mut renderer, sheet_id, 0, 0, 0);

    let v = renderer.vertices();
    // bottom right corner, positions in half-pixel units: 2 * 23, 2 * 24
    assert_eq!((v[5].x, v[5].y), (46, 48));

    sprites.reset_scaling();
    sprites.draw_sprite(&mut renderer, sheet_id, 0, 0, 0);
    let v = renderer.vertices();
    assert_eq!((v[11].x, v[11].y), (30, 32));
}

#[test]
fn reload_sprite_sheet_keeps_the_id() {
    let mut renderer = Renderer::new(800, 600, 200, 150);
    let bytes = [0u8; 4 * 4 * 4];
    let texture_id = renderer.add_texture(&bytes, 4, 4);

    let mut sprites = SpriteSystem::new();
    let frames = [Rect { x: 0, y: 0, w: 4, h: 4 }];
    let sheet_id = sprites.add_spritesheet(texture_id, &frames, None);

    let new_frames = [
        Rect { x: 0, y: 0, w: 2, h: 2 },
        Rect { x: 2, y: 0, w: 2, h: 2 },
    ];
    sprites.reload_sprite_sheet(sheet_id, texture_id, &new_frames, None);

    // the old ID still draws, now with the new geometry
    sprites.draw_sprite(&mut renderer, sheet_id, 1, 0, 0);
    assert_eq!(renderer.sections().len(), 1);
    assert_eq!(sprites.len(), 1);
}

#[test]
fn sprite_scaling_saturates_at_the_largest_size() {
    let mut renderer = Renderer::new(800, 600, 200, 150);
    let bytes = [0u8; 4 * 2 * 2];
    let texture_id = renderer.add_texture(&bytes, 2, 2);

    let mut sprites = SpriteSystem::new();
    let frames = [Rect { x: 0, y: 0, w: 2, h: 2 }];
    let sheet_id = sprites.add_spritesheet(texture_id, &frames, None);

    sprites.set_scaling(u32::MAX, 1);
    sprites.draw_sprite(&mut renderer, sheet_id, 0, 0, 0);

    let v = renderer.vertices();
    // 2 * u32::MAX saturates to u32::MAX; positions are half-pixel units
    assert_eq!(v[5].x, 2 * (u32::MAX as i64));
}

#[test]
fn frame_count_follows_reloads() {
    let mut renderer = Renderer::new(800, 600, 200, 150);
    let bytes = [0u8; 4 * 4 * 4];
    let texture_id = renderer.add_texture(&bytes, 4, 4);

    let mut sprites = SpriteSystem::new();
    let frames = [Rect { x: 0, y: 0, w: 4, h: 4 }];
    let sheet_id = sprites.add_spritesheet(texture_id, &frames, None);
    assert_eq!(sprites.frame_count(sheet_id), 1);

    let new_frames = [
        Rect { x: 0, y: 0, w: 2, h: 2 },
        Rect { x: 2, y: 0, w: 2, h: 2 },
        Rect { x: 0, y: 2, w: 2, h: 2 },
    ];
    sprites.reload_sprite_sheet(sheet_id, texture_id, &new_frames, None);
    assert_eq!(sprites.frame_count(sheet_id), 3);
}

use pixel_engine::geometry::Rect;
use pixel_engine::renderer::{Canvas, ColorRGBA, PrimitiveType, Renderer};

#[test]
fn canvas_centering_for_exact_fit() {
    // window 800x600, canvas 200x150: integer scale 4, exact fit, no offset
    let canvas = Canvas::new(800, 600, 200, 150);
    assert_eq!(canvas.scale, 4);
    assert_eq!(canvas.scaled_dim.width, 800);
    assert_eq!(canvas.scaled_dim.height, 600);
    assert_eq!(canvas.pos.x, 0);
    assert_eq!(canvas.pos.y, 0);
}

#[test]
fn canvas_centering_with_margins() {
    // window 900x640, canvas 200x150: scale min(4, 4) = 4, margins split evenly
    let mut canvas = Canvas::new(800, 600, 200, 150);
    canvas.update(900, 640);
    assert_eq!(canvas.scale, 4);
    assert_eq!(canvas.scaled_dim.width, 800);
    assert_eq!(canvas.scaled_dim.height, 600);
    assert_eq!(canvas.pos.x, 50);
    assert_eq!(canvas.pos.y, 20);
}

#[test]
fn canvas_scale_clamps_to_one_for_small_windows() {
    let mut canvas = Canvas::new(800, 600, 200, 150);
    canvas.update(100, 80);
    assert_eq!(canvas.scale, 1);
    assert_eq!(canvas.scaled_dim.width, 200);
    assert_eq!(canvas.scaled_dim.height, 150);
    assert_eq!(canvas.pos.x, -50);
    assert_eq!(canvas.pos.y, -35);
}

#[test]
fn render_recomputes_canvas_after_resize() {
    let mut renderer = Renderer::new(800, 600, 200, 150);
    renderer.on_window_resize(400, 300);
    renderer.render();
    let canvas = renderer.canvas();
    assert_eq!(canvas.scale, 2);
    assert_eq!(canvas.scaled_dim.width, 400);
    assert_eq!(canvas.scaled_dim.height, 300);
    assert_eq!(canvas.pos.x, 0);
    assert_eq!(canvas.pos.y, 0);
}

#[test]
fn texture_id_is_stable_across_reload() {
    let mut renderer = Renderer::new(800, 600, 200, 150);
    let bytes_2x2 = [255u8; 16];
    let id = renderer.add_texture(&bytes_2x2, 2, 2);

    // draw with the original content
    renderer.draw_texture(id, Rect { x: 0, y: 0, w: 8, h: 8 }, None);

    // reload new pixel data of a different size behind the same ID
    let bytes_1x1 = [7u8, 8, 9, 10];
    renderer.reload_texture(id, &bytes_1x1, 1, 1);

    // the same ID keeps working and now names the new content
    renderer.draw_texture(id, Rect { x: 8, y: 0, w: 8, h: 8 }, None);
    let textures = renderer.textures();
    assert_eq!(textures.len(), 1);
    assert_eq!(textures[0].width, 1);
    assert_eq!(textures[0].height, 1);
    assert_eq!(textures[0].rgba, vec![7, 8, 9, 10]);

    let sections = renderer.sections();
    assert_eq!(sections.len(), 2);
    assert_eq!(sections[0].texture, Some(id));
    assert_eq!(sections[1].texture, Some(id));
}

#[test]
fn sections_tile_the_vertex_buffer() {
    let mut renderer = Renderer::new(800, 600, 200, 150);
    renderer.draw_point(1, 2);
    renderer.draw_line(0, 0, 10, 0);
    renderer.draw_rect_fill(Rect { x: 0, y: 0, w: 4, h: 4 });
    renderer.draw_rect(Rect { x: 1, y: 1, w: 2, h: 2 });

    let total: usize = renderer.sections().iter().map(|s| s.length).sum();
    assert_eq!(total, renderer.vertices().len());
    // 1 point + 2 line + 6 fill + 4 * 2 outline
    assert_eq!(total, 17);
}

#[test]
fn clear_empties_the_batch_and_resets_the_draw_color() {
    let mut renderer = Renderer::new(800, 600, 200, 150);
    renderer.set_draw_color(1, 2, 3, 4);
    renderer.draw_point(0, 0);
    renderer.clear();
    assert!(renderer.vertices().is_empty());
    assert!(renderer.sections().is_empty());
    assert_eq!(renderer.draw_color(), ColorRGBA { r: 0, g: 0, b: 0, a: 255 });
}

#[test]
fn color_key_applies_to_sections_until_disabled() {
    let mut renderer = Renderer::new(800, 600, 200, 150);
    renderer.set_color_key(255, 0, 255);
    renderer.draw_point(0, 0);
    renderer.disable_color_key();
    renderer.draw_point(1, 1);

    let sections = renderer.sections();
    assert_eq!(sections[0].color_key, ColorRGBA { r: 255, g: 0, b: 255, a: 255 });
    assert_eq!(sections[1].color_key, ColorRGBA { r: 0, g: 0, b: 0, a: 0 });
}

#[test]
fn line_start_is_nudged_half_a_pixel() {
    let mut renderer = Renderer::new(800, 600, 200, 150);
    renderer.draw_line(3, 4, 7, 4);
    let vertices = renderer.vertices();
    // positions are in half-pixel units
    assert_eq!((vertices[0].x, vertices[0].y), (5, 7));
    assert_eq!((vertices[1].x, vertices[1].y), (14, 8));
}

#[test]
fn texture_quad_maps_clip_with_v_flipped() {
    let mut renderer = Renderer::new(800, 600, 200, 150);
    let bytes = [0u8; 4 * 8 * 4];
    let id = renderer.add_texture(&bytes, 8, 4);
    renderer.draw_texture(
        id,
        Rect { x: 0, y: 0, w: 16, h: 16 },
        Some(Rect { x: 2, y: 1, w: 4, h: 2 }),
    );
    let v = renderer.vertices();
    // top left: u = 2/8, v = (4 - 1)/4
    assert_eq!((v[0].u_num, v[0].u_den, v[0].v_num, v[0].v_den), (2, 8, 3, 4));
    // bottom right: u = (2 + 4)/8, v = (4 - (1 + 2))/4
    assert_eq!((v[5].u_num, v[5].u_den, v[5].v_num, v[5].v_den), (6, 8, 1, 4));
}

#[test]
fn filled_circle_uses_one_line_per_column() {
    let mut renderer = Renderer::new(800, 600, 200, 150);
    renderer.draw_fill_circle(0, 0, 2);
    let sections = renderer.sections();
    assert_eq!(sections.len(), 1);
    assert!(matches!(sections[0].primitive, PrimitiveType::Line));
    // columns -2..=2: five lines, two vertices each
    assert_eq!(sections[0].length, 10);
    assert_eq!(renderer.vertices().len(), 10);
}

#[test]
fn circle_outline_is_a_point_cloud() {
    let mut renderer = Renderer::new(800, 600, 200, 150);
    renderer.draw_circle(5, 5, 2);
    let sections = renderer.sections();
    assert_eq!(sections.len(), 1);
    assert!(matches!(sections[0].primitive, PrimitiveType::Point));
    assert_eq!(sections[0].length, 12);
}

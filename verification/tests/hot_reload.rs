use pixel_engine::animation::AnimationSystem;
use pixel_engine::aseprite_data::{
    add_asperite_sprite_sheet_animation, aseprite_sprite_sheet_frames, AsepriteFrame,
    AsepriteFrameTag, AsepriteSheetData,
};
use pixel_engine::audio::AudioIds;
use pixel_engine::audio_reload::AudioReloader;
use pixel_engine::geometry::Rect;
use pixel_engine::renderer::Renderer;
use pixel_engine::sprite_reload::AsepriteReloader;
use pixel_engine::sprites::SpriteSystem;

fn frame(x: u32, y: u32, duration: u32) -> AsepriteFrame {
    AsepriteFrame { x, y, w: 8, h: 8, duration }
}

fn sheet(durations: &[u32], tag: &str, from: u32, to: u32) -> AsepriteSheetData {
    let frames = durations
        .iter()
        .enumerate()
        .map(|(i, d)| frame(8 * i as u32, 0, *d))
        .collect::<Vec<AsepriteFrame>>();
    AsepriteSheetData {
        frames,
        frame_tags: vec![AsepriteFrameTag { name: String::from(tag), from, to }],
    }
}

#[test]
fn sheet_frames_map_to_clip_rects() {
    let data = sheet(&[100, 100, 100], "Right", 0, 2);
    let rects = aseprite_sprite_sheet_frames(&data);
    assert_eq!(
        rects,
        vec![
            Rect { x: 0, y: 0, w: 8, h: 8 },
            Rect { x: 8, y: 0, w: 8, h: 8 },
            Rect { x: 16, y: 0, w: 8, h: 8 },
        ]
    );
}

#[test]
fn tagged_animation_is_cut_from_the_sheet() {
    let data = sheet(&[100, 50, 25, 10], "Down", 1, 3);
    let mut animations = AnimationSystem::new();
    let id = add_asperite_sprite_sheet_animation(&mut animations, &data, "Down");
    assert_eq!(animations.current_frame(id), 1);

    animations.start_animation(id);
    animations.update(60); // past the 50 ms first frame of the clip
    assert_eq!(animations.current_frame(id), 2);
}

#[test]
fn applied_reload_replaces_data_and_restarts_animations() {
    let mut renderer = Renderer::new(800, 600, 200, 150);
    let texture_id = renderer.add_texture(&[0u8; 4 * 16 * 8], 16, 8);

    let mut sprites = SpriteSystem::new();
    let data = sheet(&[100, 100], "Right", 0, 1);
    let rects = aseprite_sprite_sheet_frames(&data);
    let sheet_id = sprites.add_spritesheet(texture_id, &rects, None);

    let mut animations = AnimationSystem::new();
    let animation_id = add_asperite_sprite_sheet_animation(&mut animations, &data, "Right");

    let mut reloader = AsepriteReloader::new();
    reloader.register_aseprite_sprite_sheet(
        "resources/smiley.png",
        "resources/smiley.json",
        texture_id,
        sheet_id,
    );
    reloader.register_aseprite_animation("resources/smiley.json", animation_id, "Right");
    assert!(reloader.is_registered("resources/smiley.json"));

    // fresh sheet metadata and image bytes arrive from disk
    let new_data = sheet(&[10, 20, 30], "Right", 0, 2);
    let applied = reloader.apply_reload(
        "resources/smiley.json",
        &mut renderer,
        &mut sprites,
        &mut animations,
        &new_data,
        &[1u8; 4 * 24 * 8],
        24,
        8,
    );
    assert!(applied);

    // same IDs, new content
    assert_eq!(renderer.textures()[0].width, 24);
    assert_eq!(animations.current_frame(animation_id), 0);
    assert!(animations.is_playing(animation_id));

    // the reloaded animation plays with the new durations
    animations.update(15);
    assert_eq!(animations.current_frame(animation_id), 1);
}

#[test]
fn failed_reload_leaves_state_untouched() {
    let mut renderer = Renderer::new(800, 600, 200, 150);
    let texture_id = renderer.add_texture(&[0u8; 4 * 16 * 8], 16, 8);

    let mut sprites = SpriteSystem::new();
    let data = sheet(&[100, 100], "Right", 0, 1);
    let rects = aseprite_sprite_sheet_frames(&data);
    let sheet_id = sprites.add_spritesheet(texture_id, &rects, None);

    let mut animations = AnimationSystem::new();
    let animation_id = add_asperite_sprite_sheet_animation(&mut animations, &data, "Right");
    animations.step_to_next_frame(animation_id);

    let mut reloader = AsepriteReloader::new();
    reloader.register_aseprite_sprite_sheet(
        "resources/smiley.png",
        "resources/smiley.json",
        texture_id,
        sheet_id,
    );
    reloader.register_aseprite_animation("resources/smiley.json", animation_id, "Right");

    // the new sheet no longer carries the bound frame tag: nothing may change
    let new_data = sheet(&[10, 20, 30], "Left", 0, 2);
    let applied = reloader.apply_reload(
        "resources/smiley.json",
        &mut renderer,
        &mut sprites,
        &mut animations,
        &new_data,
        &[1u8; 4 * 24 * 8],
        24,
        8,
    );
    assert!(!applied);
    assert_eq!(renderer.textures()[0].width, 16);
    assert_eq!(animations.current_frame(animation_id), 1);
    assert!(!animations.is_playing(animation_id));
}

#[test]
fn flags_are_collected_and_cleared() {
    let mut renderer = Renderer::new(800, 600, 200, 150);
    let texture_id = renderer.add_texture(&[0u8; 4], 1, 1);
    let mut sprites = SpriteSystem::new();
    let sheet_id = sprites.add_spritesheet(texture_id, &[Rect { x: 0, y: 0, w: 1, h: 1 }], None);

    let mut reloader = AsepriteReloader::new();
    reloader.register_aseprite_sprite_sheet("a.png", "a.json", texture_id, sheet_id);

    // none of the paths exists on disk, so nothing matches and nothing is flagged
    reloader.mark_updated(&vec![String::from("b.png")]);
    assert!(reloader.pending_sheets().is_empty());
    reloader.clear_flags();
    assert!(reloader.pending_sheets().is_empty());
}

#[test]
fn audio_reloader_tracks_registered_sounds() {
    let mut ids = AudioIds::new();
    let first = ids.generate_sound_id();
    let second = ids.generate_sound_id();
    assert_ne!(first, second);

    let mut reloader = AudioReloader::new();
    reloader.register_sound(first, "resources/audio/click.wav");
    assert!(reloader.is_registered(first));
    assert!(!reloader.is_registered(second));

    // no file of that name exists here, so no sound matches
    let to_reload = reloader.update(&vec![String::from("resources/audio/click.wav")]);
    assert!(to_reload.is_empty() || to_reload.iter().all(|(id, _)| *id == first));
}

#[test]
fn empty_batch_flags_nothing() {
    let mut renderer = Renderer::new(800, 600, 200, 150);
    let texture_id = renderer.add_texture(&[0u8; 4], 1, 1);
    let mut sprites = SpriteSystem::new();
    let sheet_id = sprites.add_spritesheet(texture_id, &[Rect { x: 0, y: 0, w: 1, h: 1 }], None);

    let mut reloader = AsepriteReloader::new();
    reloader.register_aseprite_sprite_sheet("a.png", "a.json", texture_id, sheet_id);

    // with no changed files at all, no record may be flagged
    reloader.mark_updated(&Vec::new());
    assert!(reloader.pending_sheets().is_empty());
}

#[test]
fn empty_batch_names_no_sound() {
    let mut ids = AudioIds::new();
    let sound = ids.generate_sound_id();
    let mut reloader = AudioReloader::new();
    reloader.register_sound(sound, "resources/audio/click.wav");

    // with no changed files at all, no sound is named for reload
    assert!(reloader.update(&Vec::new()).is_empty());
}

#[test]
fn records_remember_their_registered_image_path() {
    let mut renderer = Renderer::new(800, 600, 200, 150);
    let texture_id = renderer.add_texture(&[0u8; 4], 1, 1);
    let mut sprites = SpriteSystem::new();
    let sheet_id = sprites.add_spritesheet(texture_id, &[Rect { x: 0, y: 0, w: 1, h: 1 }], None);

    let mut reloader = AsepriteReloader::new();
    reloader.register_aseprite_sprite_sheet("art/walker-sheet.png", "meta/walker.json", texture_id, sheet_id);
    assert_eq!(reloader.texture_path("meta/walker.json"), String::from("art/walker-sheet.png"));
}

use pixel_engine::audio::AudioIds;
use pixel_engine::fonts::FontIds;
use pixel_engine::fullscreen::FullscreenSystem;
use pixel_engine::geometry::Rect;
use pixel_engine::ui::{Button, Editor, BUTTON_HEIGHT, BUTTON_WIDTH};

#[test]
fn fullscreen_system_remembers_windowed_placement() {
    let mut fullscreen = FullscreenSystem::new();
    fullscreen.update(true, 10, 20, 640, 480);
    fullscreen.update(false, 0, 0, 1920, 1080); // fullscreen: keep the last windowed placement
    assert_eq!(fullscreen.last_windowed_pos(), (10, 20));
    assert_eq!(fullscreen.last_windowed_size(), (640, 480));
}

#[test]
fn ids_are_minted_monotonically() {
    let mut audio = AudioIds::new();
    let s0 = audio.generate_sound_id();
    let s1 = audio.generate_sound_id();
    let m0 = audio.generate_music_id();
    assert_ne!(s0, s1);
    let _ = m0;

    let mut fonts = FontIds::new();
    let f0 = fonts.make_id();
    let f1 = fonts.make_id();
    assert_ne!(f0, f1);
}

#[test]
fn editor_starts_with_default_settings() {
    let editor = Editor::new();
    assert!(!editor.layout_initialized);
    assert!(!editor.show_demo);
    assert_eq!(editor.zoom_amount, 3);
}

#[test]
fn ui_button_starts_hot_and_unpressed() {
    let button = Button::new();
    assert!(button.is_hot);
    assert_eq!(button.rect, Rect { x: 0, y: 0, w: BUTTON_WIDTH, h: BUTTON_HEIGHT });
    assert!(!button.released_now());
}

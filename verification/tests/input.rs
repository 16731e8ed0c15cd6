use pixel_engine::button::ButtonEvent;
use pixel_engine::input::{InputDevices, InputEvent, MouseButton};
use pixel_engine::keyboard::Keyboard;
use pixel_engine::mouse::Mouse;
use pixel_engine::renderer::Canvas;

#[test]
fn initially_all_keys_are_up() {
    let keyboard = Keyboard::<u32>::new();
    for key in [0u32, 1, 100, u32::MAX] {
        assert!(!keyboard.is_pressed(key));
        assert!(keyboard.is_released(key));
    }
}

#[test]
fn two_buttons_can_be_pressed_simulatenously() {
    let mut keyboard = Keyboard::<u32>::new();

    keyboard.register_event(1, ButtonEvent::Down);
    keyboard.register_event(100, ButtonEvent::Down);
    keyboard.update();

    assert!(keyboard.is_pressed(1));
    assert!(keyboard.is_pressed(100));
    assert!(keyboard.is_pressed_now(1));
    assert!(keyboard.is_pressed_now(100));
}

#[test]
fn one_button_can_be_released_while_other_is_held() {
    let mut keyboard = Keyboard::<u32>::new();

    // press both buttons
    keyboard.register_event(1, ButtonEvent::Down);
    keyboard.register_event(100, ButtonEvent::Down);
    keyboard.update();

    // release one of the buttons
    keyboard.register_event(100, ButtonEvent::Up);
    keyboard.update();

    assert!(keyboard.is_pressed(1));
    assert!(!keyboard.is_pressed_now(1));
    assert!(keyboard.is_released(100));
    assert!(keyboard.is_released_now(100));
}

#[test]
fn mouse_position_is_transformed_into_canvas_space() {
    let canvas = Canvas::new(800, 600, 400, 300); // scale 2, centered at (0, 0)
    let mut mouse = Mouse::new();
    mouse.set_window_pos(401, 301);
    mouse.update(&canvas);
    // 401 / 2 and 301 / 2, rounded half away from zero
    assert_eq!(mouse.pos.x, 201);
    assert_eq!(mouse.pos.y, 151);
}

#[test]
fn input_devices_dispatch_events() {
    let canvas = Canvas::new(800, 600, 400, 300);
    let mut input = InputDevices::new();
    assert!(!input.quit);

    input.register_event(&InputEvent::MouseButtonDown { button: MouseButton::Left });
    input.register_event(&InputEvent::KeyDown { key: 42 });
    input.register_event(&InputEvent::MouseMotion { x: 10, y: 20 });
    input.update(&canvas);

    assert!(input.mouse.left_button.is_pressed_now());
    assert!(input.keyboard.is_pressed_now(42));
    assert_eq!(input.mouse.pos.x, 5);
    assert_eq!(input.mouse.pos.y, 10);

    input.register_event(&InputEvent::Quit);
    assert!(input.quit);
}

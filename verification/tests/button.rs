use pixel_engine::button::{Button, ButtonEvent};

#[test]
fn button_button_is_initially_released() {
    let button = Button::new();
    assert!(button.is_released());
}

#[test]
fn button_button_stays_released_if_no_input() {
    let mut button = Button::new();
    button.update();
    assert!(button.is_released());
}

#[test]
fn button_button_pressed_if_updated_with_down_event() {
    let mut button = Button::new();

    // initial press
    button.register_event(ButtonEvent::Down);
    button.update();
    assert!(!button.is_released());
    assert!(button.is_pressed());
    assert!(button.is_pressed_now());

    // continue to press
    button.update();
    assert!(!button.is_pressed_now());
    assert!(button.is_pressed());
}

#[test]
fn button_button_released_if_updated_with_up_event() {
    let mut button = Button::new();

    // initial press
    button.register_event(ButtonEvent::Down);
    button.update();

    // release button
    button.register_event(ButtonEvent::Up);
    button.update();
    assert!(!button.is_pressed());
    assert!(button.is_released_now());
    assert!(button.is_released());

    // continue to hold up button
    button.update();
    assert!(!button.is_released_now());
    assert!(button.is_released());
}

#[test]
fn input_button_is_initially_released() {
    let button = Button::new();
    assert!(button.is_released());
}

#[test]
fn input_button_stays_released_if_no_input() {
    let mut button = Button::new();
    button.update();
    assert!(button.is_released());
}

#[test]
fn input_button_pressed_if_updated_with_down_event() {
    let mut button = Button::new();

    // initial press
    button.register_event(ButtonEvent::Down);
    button.update();
    assert!(!button.is_released());
    assert!(button.is_pressed());
    assert!(button.is_pressed_now());

    // continue to press
    button.update();
    assert!(!button.is_pressed_now());
    assert!(button.is_pressed());
}

#[test]
fn input_button_released_if_updated_with_up_event() {
    let mut button = Button::new();

    // initial press
    button.register_event(ButtonEvent::Down);
    button.update();

    // release button
    button.register_event(ButtonEvent::Up);
    button.update();
    assert!(!button.is_pressed());
    assert!(button.is_released_now());
    assert!(button.is_released());

    // continue to hold up button
    button.update();
    assert!(!button.is_released_now());
    assert!(button.is_released());
}

use quad_input::context::InputContext;
use quad_input::events::Button;

#[test]
fn key_down_registers_pressed_once() {
    let mut c = InputContext::new();
    assert!(!c.is_key_down(42));
    c.apply_key_down(42);
    assert!(c.is_key_down(42));
    assert!(c.is_key_pressed(42));
    c.new_frame();
    assert!(c.is_key_down(42));
    assert!(!c.is_key_pressed(42));
    c.apply_key_down(42);
    assert!(!c.is_key_pressed(42));
    assert!(c.is_key_down(42));
}

#[test]
fn key_up_releases() {
    let mut c = InputContext::new();
    c.apply_key_down(7);
    c.apply_key_up(7);
    assert!(!c.is_key_down(7));
    assert!(c.is_key_released(7));
    c.new_frame();
    assert!(!c.is_key_released(7));
}

#[test]
fn key_sets_keep_other_keys() {
    let mut c = InputContext::new();
    c.apply_key_down(1);
    c.apply_key_down(2);
    c.apply_key_up(1);
    assert!(!c.is_key_down(1));
    assert!(c.is_key_down(2));
    assert!(c.is_key_pressed(2));
}

#[test]
fn char_queue_stack_order() {
    let mut c = InputContext::new();
    c.apply_char('a');
    c.apply_char('b');
    c.apply_char('c');
    assert_eq!(c.get_char_pressed(), Some('c'));
    assert_eq!(c.get_char_pressed(), Some('b'));
    assert_eq!(c.get_char_pressed(), Some('a'));
    assert_eq!(c.get_char_pressed(), None);
}

#[test]
fn ui_char_queue_is_independent() {
    let mut c = InputContext::new();
    c.apply_char('x');
    assert_eq!(c.get_char_pressed(), Some('x'));
    assert_eq!(c.get_char_pressed(), None);
    assert_eq!(c.get_char_pressed_ui(), Some('x'));
    assert_eq!(c.get_char_pressed_ui(), None);
}

#[test]
fn last_key_pressed() {
    let mut c = InputContext::new();
    assert_eq!(c.get_last_key_pressed(), None);
    c.apply_key_down(9);
    assert_eq!(c.get_last_key_pressed(), Some(9));
    c.new_frame();
    assert_eq!(c.get_last_key_pressed(), None);
}

#[test]
fn mouse_buttons_mirror_key_semantics() {
    let mut c = InputContext::new();
    c.apply_mouse_button_down(Button::Right, 1, 2);
    assert!(c.is_mouse_button_down(Button::Right));
    assert!(c.is_mouse_button_pressed(Button::Right));
    assert!(!c.is_mouse_button_down(Button::Left));
    assert_eq!(c.mouse_position(), (1, 2));
    c.new_frame();
    assert!(c.is_mouse_button_down(Button::Right));
    assert!(!c.is_mouse_button_pressed(Button::Right));
    c.apply_mouse_button_down(Button::Right, 1, 2);
    assert!(!c.is_mouse_button_pressed(Button::Right));
    c.apply_mouse_button_up(Button::Right, 3, 4);
    assert!(!c.is_mouse_button_down(Button::Right));
    assert!(c.is_mouse_button_released(Button::Right));
    assert_eq!(c.mouse_position(), (3, 4));
}

#[test]
fn wheel_accumulates_until_frame() {
    let mut c = InputContext::new();
    c.apply_mouse_wheel(3, -2);
    c.apply_mouse_wheel(1, 1);
    assert_eq!(c.mouse_wheel(), (4, -1));
    c.new_frame();
    assert_eq!(c.mouse_wheel(), (0, 0));
}

#[test]
fn wheel_saturates_at_the_ends() {
    let mut c = InputContext::new();
    c.apply_mouse_wheel(i64::MAX, i64::MIN);
    c.apply_mouse_wheel(1, -1);
    assert_eq!(c.mouse_wheel(), (i64::MAX, i64::MIN));
}

#[test]
fn quit_interception() {
    let mut c = InputContext::new();
    assert!(!c.is_quit_requested());
    assert!(!c.apply_quit_request());
    assert!(!c.is_quit_requested());
    c.prevent_quit();
    assert!(c.apply_quit_request());
    assert!(c.is_quit_requested());
}

#[test]
fn cursor_and_simulation_settings() {
    let mut c = InputContext::new();
    assert!(c.is_simulating_mouse_with_touch());
    c.simulate_mouse_with_touch(false);
    assert!(!c.is_simulating_mouse_with_touch());
    assert!(!c.is_simulating_touch_with_mouse());
    c.simulate_touch_with_mouse(true);
    assert!(c.is_simulating_touch_with_mouse());
    c.set_cursor_grab(true);
    assert!(c.cursor_grabbed);
    c.show_mouse(false);
    assert!(!c.cursor_shown);
}

use quad_input::context::{InputContext, MOUSE_TOUCH_ID};
use quad_input::events::Button;
use quad_input::geom::PixelPos;
use quad_input::touch::TouchPhase;

#[test]
fn mouse_to_touch_lifecycle() {
    let mut c = InputContext::new();
    c.simulate_touch_with_mouse(true);
    c.apply_mouse_button_down(Button::Left, 10, 20);
    let ts = c.touches();
    assert_eq!(ts.len(), 1);
    assert_eq!(ts[0].id, MOUSE_TOUCH_ID);
    assert!(matches!(ts[0].phase, TouchPhase::Started));
    assert_eq!(ts[0].position, PixelPos { x: 10, y: 20 });

    c.new_frame();
    c.apply_mouse_motion(30, 40);
    let ts = c.touches();
    assert_eq!(ts.len(), 1);
    assert!(matches!(ts[0].phase, TouchPhase::Moved));
    assert_eq!(ts[0].position, PixelPos { x: 30, y: 40 });

    c.new_frame();
    c.apply_mouse_button_up(Button::Left, 30, 40);
    let ts = c.touches();
    assert_eq!(ts.len(), 1);
    assert!(matches!(ts[0].phase, TouchPhase::Ended));
    assert_eq!(ts[0].position, PixelPos { x: 30, y: 40 });

    c.new_frame();
    let ts = c.touches();
    assert!(ts.is_empty());
}

#[test]
fn stationary_on_second_query_at_same_position() {
    let mut c = InputContext::new();
    c.simulate_touch_with_mouse(true);
    c.apply_mouse_button_down(Button::Left, 5, 5);
    let ts = c.touches();
    assert!(matches!(ts[0].phase, TouchPhase::Started));
    let ts = c.touches();
    assert!(matches!(ts[0].phase, TouchPhase::Stationary));
    assert_eq!(ts[0].position, PixelPos { x: 5, y: 5 });
}

#[test]
fn no_synthetic_touch_without_simulation() {
    let mut c = InputContext::new();
    c.apply_mouse_button_down(Button::Left, 5, 5);
    let ts = c.touches();
    assert!(ts.is_empty());
}

#[test]
fn synthetic_touch_vanishes_when_button_no_longer_down() {
    let mut c = InputContext::new();
    c.simulate_touch_with_mouse(true);
    c.apply_mouse_button_down(Button::Left, 5, 5);
    let ts = c.touches();
    assert_eq!(ts.len(), 1);
    // the release was consumed in an earlier frame: button neither
    // released this frame nor down any more
    c.apply_mouse_button_up(Button::Left, 5, 5);
    c.new_frame();
    let ts = c.touches();
    assert!(ts.is_empty());
}

#[test]
fn real_touch_lifecycle() {
    let mut c = InputContext::new();
    c.simulate_mouse_with_touch(false);
    c.apply_touch(3, TouchPhase::Started, 1, 2);
    let ts = c.touches();
    assert_eq!(ts.len(), 1);
    assert_eq!(ts[0].id, 3);
    assert!(matches!(ts[0].phase, TouchPhase::Started));
    c.apply_touch(3, TouchPhase::Ended, 4, 6);
    let ts = c.touches();
    assert_eq!(ts.len(), 1);
    assert!(matches!(ts[0].phase, TouchPhase::Ended));
    assert_eq!(ts[0].position, PixelPos { x: 4, y: 6 });
    c.new_frame();
    let ts = c.touches();
    assert!(ts.is_empty());
}

#[test]
fn touch_drives_mouse_when_enabled() {
    let mut c = InputContext::new();
    assert!(c.is_simulating_mouse_with_touch());
    c.apply_touch(7, TouchPhase::Started, 100, 200);
    assert!(c.is_mouse_button_down(Button::Left));
    assert!(c.is_mouse_button_pressed(Button::Left));
    assert_eq!(c.mouse_position(), (100, 200));
    c.apply_touch(7, TouchPhase::Moved, 150, 250);
    assert_eq!(c.mouse_position(), (150, 250));
    assert!(c.is_mouse_button_down(Button::Left));
    c.apply_touch(7, TouchPhase::Ended, 150, 250);
    assert!(!c.is_mouse_button_down(Button::Left));
    assert!(c.is_mouse_button_released(Button::Left));
}

#[test]
fn touch_leaves_mouse_alone_when_disabled() {
    let mut c = InputContext::new();
    c.simulate_mouse_with_touch(false);
    c.apply_touch(9, TouchPhase::Started, 10, 10);
    assert!(!c.is_mouse_button_down(Button::Left));
    assert!(!c.is_mouse_button_pressed(Button::Left));
    assert_eq!(c.mouse_position(), (0, 0));
}

#[test]
fn two_touches_are_kept_apart() {
    let mut c = InputContext::new();
    c.simulate_mouse_with_touch(false);
    c.apply_touch(1, TouchPhase::Started, 1, 1);
    c.apply_touch(2, TouchPhase::Started, 2, 2);
    c.apply_touch(1, TouchPhase::Moved, 3, 3);
    let mut ts = c.touches();
    ts.sort_by_key(|t| t.id);
    assert_eq!(ts.len(), 2);
    assert_eq!(ts[0].id, 1);
    assert!(matches!(ts[0].phase, TouchPhase::Moved));
    assert_eq!(ts[0].position, PixelPos { x: 3, y: 3 });
    assert_eq!(ts[1].id, 2);
    assert!(matches!(ts[1].phase, TouchPhase::Started));
}

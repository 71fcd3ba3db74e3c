use quad_input::context::InputContext;
use quad_input::geom::{convert_to_local, frac_sub, Frac, PixelPos};
use quad_input::touch::TouchPhase;

#[test]
fn pixel_to_local_center_and_corners() {
    let l = convert_to_local(PixelPos { x: 400, y: 300 }, 800, 600);
    assert_eq!(l.x.num, 0);
    assert_eq!(l.y.num, 0);
    let l = convert_to_local(PixelPos { x: 0, y: 0 }, 800, 600);
    assert_eq!(l.x.num, -l.x.den);
    assert_eq!(l.y.num, -l.y.den);
    let l = convert_to_local(PixelPos { x: 800, y: 600 }, 800, 600);
    assert_eq!(l.x.num, l.x.den);
    assert_eq!(l.y.num, l.y.den);
}

#[test]
fn pixel_to_local_formula() {
    let l = convert_to_local(PixelPos { x: 200, y: 150 }, 800, 600);
    assert_eq!(l.x.num, 2 * 200 - 800);
    assert_eq!(l.x.den, 800);
    assert_eq!(l.y.num, 2 * 150 - 600);
    assert_eq!(l.y.den, 600);
}

#[test]
fn frac_sub_exact() {
    let a = Frac { num: 1, den: 2 };
    let b = Frac { num: 1, den: 3 };
    let d = frac_sub(a, b);
    assert_eq!(d.num, 1 * 3 - 1 * 2);
    assert_eq!(d.den, 6);
}

#[test]
fn mouse_position_local_matches_conversion() {
    let mut c = InputContext::new();
    c.apply_mouse_motion(200, 150);
    let l = c.mouse_position_local(800, 600);
    assert_eq!(l.x.num, 2 * 200 - 800);
    assert_eq!(l.x.den, 800);
    assert_eq!(l.y.num, 2 * 150 - 600);
    assert_eq!(l.y.den, 600);
}

#[test]
fn mouse_delta_first_call_zero_then_half() {
    let mut c = InputContext::new();
    c.apply_mouse_motion(400, 300);
    let d = c.mouse_delta_position(800, 600);
    assert_eq!(d.x.num, 0);
    assert_eq!(d.y.num, 0);
    c.apply_mouse_motion(600, 450);
    let d = c.mouse_delta_position(800, 600);
    // previous - current = (0, 0) - (1/2, 1/2) = (-1/2, -1/2)
    assert_eq!(d.x.num * 2, -d.x.den);
    assert_eq!(d.y.num * 2, -d.y.den);
    assert!(d.x.den > 0);
    assert!(d.y.den > 0);
}

#[test]
fn mouse_delta_tracks_the_last_query_not_the_frame() {
    let mut c = InputContext::new();
    c.apply_mouse_motion(0, 0);
    let _ = c.mouse_delta_position(100, 100);
    c.apply_mouse_motion(50, 50);
    // no frame boundary between the two queries
    let d = c.mouse_delta_position(100, 100);
    // previous - current = (-1, -1) - (0, 0) = (-1, -1)
    assert_eq!(d.x.num, -d.x.den);
    assert_eq!(d.y.num, -d.y.den);
}

#[test]
fn touches_local_converts_positions() {
    let mut c = InputContext::new();
    c.simulate_mouse_with_touch(false);
    c.apply_touch(2, TouchPhase::Started, 400, 300);
    let ts = c.touches_local(800, 600);
    assert_eq!(ts.len(), 1);
    assert_eq!(ts[0].id, 2);
    assert!(matches!(ts[0].phase, TouchPhase::Started));
    assert_eq!(ts[0].position.x.num, 0);
    assert_eq!(ts[0].position.y.num, 0);
    assert_eq!(ts[0].position.x.den, 800);
    assert_eq!(ts[0].position.y.den, 600);
}

use quad_input::context::{InputContext, SubscriberError};
use quad_input::events::{InputEvent, InputEventHandler};

struct Collector {
    events: Vec<InputEvent>,
}

impl InputEventHandler for Collector {
    fn handle(&mut self, event: InputEvent) {
        self.events.push(event);
    }
}

#[test]
fn replay_per_subscriber_exactly_once() {
    let mut c = InputContext::new();
    let a = c.register_input_subscriber();
    let b = c.register_input_subscriber();
    assert_eq!(a, 0);
    assert_eq!(b, 1);
    let e1 = InputEvent::KeyDown { key: 10 };
    let e2 = InputEvent::Character { character: 'q' };
    c.record(e1);
    c.record(e2);
    let mut ha = Collector { events: Vec::new() };
    c.repeat_all_miniquad_input(&mut ha, a).unwrap();
    assert_eq!(ha.events, vec![e1, e2]);
    let mut ha2 = Collector { events: Vec::new() };
    c.repeat_all_miniquad_input(&mut ha2, a).unwrap();
    assert!(ha2.events.is_empty());
    let mut hb = Collector { events: Vec::new() };
    c.repeat_all_miniquad_input(&mut hb, b).unwrap();
    assert_eq!(hb.events, vec![e1, e2]);
}

#[test]
fn replay_unknown_subscriber_errors() {
    let mut c = InputContext::new();
    let mut h = Collector { events: Vec::new() };
    let r = c.repeat_all_miniquad_input(&mut h, 0);
    assert_eq!(r, Err(SubscriberError::UnknownSubscriber));
    let a = c.register_input_subscriber();
    c.record(InputEvent::QuitRequested);
    let r = c.repeat_all_miniquad_input(&mut h, a + 1);
    assert_eq!(r, Err(SubscriberError::UnknownSubscriber));
    // the refused calls changed nothing
    let r = c.repeat_all_miniquad_input(&mut h, a);
    assert_eq!(r, Ok(()));
    assert_eq!(h.events, vec![InputEvent::QuitRequested]);
}

#[test]
fn late_subscriber_gets_only_later_events() {
    let mut c = InputContext::new();
    let a = c.register_input_subscriber();
    c.record(InputEvent::KeyDown { key: 1 });
    let b = c.register_input_subscriber();
    c.record(InputEvent::KeyUp { key: 1 });
    let mut hb = Collector { events: Vec::new() };
    c.repeat_all_miniquad_input(&mut hb, b).unwrap();
    assert_eq!(hb.events, vec![InputEvent::KeyUp { key: 1 }]);
    let mut ha = Collector { events: Vec::new() };
    c.repeat_all_miniquad_input(&mut ha, a).unwrap();
    assert_eq!(ha.events, vec![InputEvent::KeyDown { key: 1 }, InputEvent::KeyUp { key: 1 }]);
}

#[test]
fn drain_returns_events_in_order() {
    let mut c = InputContext::new();
    let a = c.register_input_subscriber();
    c.record(InputEvent::MouseWheel { dx: 1, dy: 2 });
    c.record(InputEvent::MouseMotion { x: 3, y: 4 });
    let got = c.drain_input_events(a).unwrap();
    assert_eq!(
        got,
        vec![InputEvent::MouseWheel { dx: 1, dy: 2 }, InputEvent::MouseMotion { x: 3, y: 4 }]
    );
    assert!(c.drain_input_events(a).unwrap().is_empty());
    assert!(c.drain_input_events(5).is_err());
}

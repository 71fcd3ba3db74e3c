//! The input context: the per-frame state store, the touch/mouse
//! reconciler, and the subscriber registry with event replay.

use vstd::prelude::*;
use crate::chars::{char_pop_rest, char_pop_result, char_push, CharQueue};
use crate::events::{Button, ButtonSet, InputEvent, InputEventHandler};
use crate::geom::{convert_to_local, frac_sub, is_convert, is_local_sub, local_wf, LocalPos,
    PixelPos};
use crate::keys::KeySet;
use crate::touch::{touch_active, LocalTouch, Touch, TouchMap, TouchPhase};

verus! {

/// The reserved touch id of the contact synthesized from the mouse; a
/// real touch contact never carries it.
pub const MOUSE_TOUCH_ID: u64 = 0xffff_ffff_ffff_ffff;

/// The whole input state of one application, owned by its event loop.
pub struct InputContext {
    /// Keys currently held down.
    pub keys_down: KeySet,
    /// Keys that went down since the last frame boundary.
    pub keys_pressed: KeySet,
    /// Keys that went up since the last frame boundary.
    pub keys_released: KeySet,
    /// Characters queued for the application.
    pub chars_pressed_queue: CharQueue,
    /// Characters queued for a UI layer.
    pub chars_pressed_ui_queue: CharQueue,
    /// Buttons currently held down.
    pub mouse_down: ButtonSet,
    /// Buttons that went down since the last frame boundary.
    pub mouse_pressed: ButtonSet,
    /// Buttons that went up since the last frame boundary.
    pub mouse_released: ButtonSet,
    /// The pointer position, in device-independent pixels: the event
    /// source divides raw device coordinates by the display's scale
    /// factor before handing positions in.
    pub mouse_position: PixelPos,
    /// Wheel movement accumulated since the last frame boundary.
    pub mouse_wheel_x: i64,
    pub mouse_wheel_y: i64,
    /// The local-space position stored by the last delta query.
    pub last_mouse_position: Option<LocalPos>,
    /// Live touch contacts, real and synthetic.
    pub touches: TouchMap,
    /// Whether touch contacts also drive the mouse state.
    pub simulate_mouse_with_touch: bool,
    /// Whether the left mouse button drives a synthetic touch contact.
    pub simulate_touch_with_mouse: bool,
    /// The id of the synthetic contact.
    pub mouse_touch_id: u64,
    /// Whether the cursor was asked to be constrained to the window.
    pub cursor_grabbed: bool,
    /// Whether the cursor was asked to be visible.
    pub cursor_shown: bool,
    /// Whether a quit request is intercepted instead of ending the run.
    pub prevent_quit_event: bool,
    /// Whether an intercepted quit request is pending.
    pub quit_requested: bool,
    /// One recorded event log per registered subscriber.
    pub input_events: Vec<Vec<InputEvent>>,
}

/// The well-formedness every context built by `new` keeps: no duplicate
/// keys in the key sets, unique touch ids, and a stored delta position
/// within the bounds the conversion yields.
pub open spec fn ctx_wf(c: &InputContext) -> bool {
    &&& c.keys_down.wf()
    &&& c.keys_pressed.wf()
    &&& c.keys_released.wf()
    &&& c.touches.wf()
    &&& match c.last_mouse_position {
        Some(p) => local_wf(p),
        None => true,
    }
}

/// The logs, as a sequence of event sequences.
pub open spec fn logs_view(v: &Vec<Vec<InputEvent>>) -> Seq<Seq<InputEvent>> {
    v@.map_values(|log: Vec<InputEvent>| log@)
}

// Transitions of the key state, shared by the contracts and the laws.

/// The down-set after a key-down event.
pub open spec fn key_down_down(down: Set<u64>, k: u64) -> Set<u64> {
    down.insert(k)
}

/// The pressed-set after a key-down event: the key joins it only on a
/// transition to down.
pub open spec fn key_down_pressed(down: Set<u64>, pressed: Set<u64>, k: u64) -> Set<u64> {
    if down.contains(k) {
        pressed
    } else {
        pressed.insert(k)
    }
}

/// The down-set after a key-up event.
pub open spec fn key_up_down(down: Set<u64>, k: u64) -> Set<u64> {
    down.remove(k)
}

/// The released-set after a key-up event.
pub open spec fn key_up_released(released: Set<u64>, k: u64) -> Set<u64> {
    released.insert(k)
}

// Transitions of the subscriber registry.

/// The logs after one more subscriber registers.
pub open spec fn register_t(logs: Seq<Seq<InputEvent>>) -> Seq<Seq<InputEvent>> {
    logs.push(Seq::empty())
}

/// The logs after an event is recorded: every subscriber's log grows by it.
pub open spec fn record_t(logs: Seq<Seq<InputEvent>>, e: InputEvent) -> Seq<Seq<InputEvent>> {
    Seq::new(logs.len(), |i: int| logs[i].push(e))
}

/// The logs after one subscriber's queue is drained.
pub open spec fn drain_t(logs: Seq<Seq<InputEvent>>, id: int) -> Seq<Seq<InputEvent>> {
    logs.update(id, Seq::empty())
}

/// Replaying an unregistered subscriber id is refused with this error.
#[derive(Clone, Copy, Debug, PartialEq, Eq, Structural)]
pub enum SubscriberError {
    UnknownSubscriber,
}

// Groups of fields, for saying what a call leaves untouched.

pub open spec fn keys_unchanged(a: &InputContext, b: &InputContext) -> bool {
    &&& a.keys_down == b.keys_down
    &&& a.keys_pressed == b.keys_pressed
    &&& a.keys_released == b.keys_released
}

pub open spec fn chars_unchanged(a: &InputContext, b: &InputContext) -> bool {
    &&& a.chars_pressed_queue == b.chars_pressed_queue
    &&& a.chars_pressed_ui_queue == b.chars_pressed_ui_queue
}

pub open spec fn buttons_unchanged(a: &InputContext, b: &InputContext) -> bool {
    &&& a.mouse_down == b.mouse_down
    &&& a.mouse_pressed == b.mouse_pressed
    &&& a.mouse_released == b.mouse_released
}

pub open spec fn pointer_unchanged(a: &InputContext, b: &InputContext) -> bool {
    &&& a.mouse_position == b.mouse_position
    &&& a.mouse_wheel_x == b.mouse_wheel_x
    &&& a.mouse_wheel_y == b.mouse_wheel_y
    &&& a.last_mouse_position == b.last_mouse_position
}

pub open spec fn touches_unchanged(a: &InputContext, b: &InputContext) -> bool {
    a.touches == b.touches
}

pub open spec fn logs_unchanged(a: &InputContext, b: &InputContext) -> bool {
    a.input_events == b.input_events
}

/// What a down-event for button `b` does to the button sets: the
/// button joins the down set, joins the pressed set exactly when it was
/// not already down, and the released set stays.
pub open spec fn button_down_effect(pre: &InputContext, post: &InputContext, b: Button) -> bool {
    &&& post.mouse_down.spec_has(b)
    &&& forall|b2: Button| b2 != b ==> post.mouse_down.spec_has(b2) == pre.mouse_down.spec_has(b2)
    &&& if pre.mouse_down.spec_has(b) {
        post.mouse_pressed == pre.mouse_pressed
    } else {
        post.mouse_pressed.spec_has(b) && forall|b2: Button|
            b2 != b ==> post.mouse_pressed.spec_has(b2) == pre.mouse_pressed.spec_has(b2)
    }
    &&& post.mouse_released == pre.mouse_released
}

/// What an up-event for button `b` does to the button sets: the button
/// leaves the down set and joins the released set; the pressed set stays.
pub open spec fn button_up_effect(pre: &InputContext, post: &InputContext, b: Button) -> bool {
    &&& !post.mouse_down.spec_has(b)
    &&& forall|b2: Button| b2 != b ==> post.mouse_down.spec_has(b2) == pre.mouse_down.spec_has(b2)
    &&& post.mouse_pressed == pre.mouse_pressed
    &&& post.mouse_released.spec_has(b)
    &&& forall|b2: Button|
        b2 != b ==> post.mouse_released.spec_has(b2) == pre.mouse_released.spec_has(b2)
}

/// Saturating addition within `i64`, used by the wheel accumulator.
pub open spec fn sat_add(a: int, b: int) -> int {
    if a + b > i64::MAX {
        i64::MAX as int
    } else if a + b < i64::MIN {
        i64::MIN as int
    } else {
        a + b
    }
}

pub open spec fn settings_unchanged(a: &InputContext, b: &InputContext) -> bool {
    &&& a.simulate_mouse_with_touch == b.simulate_mouse_with_touch
    &&& a.simulate_touch_with_mouse == b.simulate_touch_with_mouse
    &&& a.mouse_touch_id == b.mouse_touch_id
    &&& a.cursor_grabbed == b.cursor_grabbed
    &&& a.cursor_shown == b.cursor_shown
    &&& a.prevent_quit_event == b.prevent_quit_event
    &&& a.quit_requested == b.quit_requested
}

/// The phase the synthetic contact takes while the left button stays
/// down: an `Ended` contact stays `Ended`; otherwise the contact is
/// `Stationary` when the pointer has not moved since the last pass and
/// `Moved` when it has.
pub open spec fn reconciled_phase(t: Touch, mp: PixelPos) -> TouchPhase {
    if t.phase == TouchPhase::Ended {
        TouchPhase::Ended
    } else if t.position == mp {
        TouchPhase::Stationary
    } else {
        TouchPhase::Moved
    }
}

/// How one reconciliation pass rewrites the state. Only the touch map
/// changes, and only at the synthetic id, and only when the mouse
/// drives a synthetic touch: an existing contact becomes `Ended` at
/// the pointer position when the left button was released this frame,
/// disappears when the button is no longer down (and no release was
/// seen), and otherwise follows the pointer as `Stationary` or
/// `Moved`; a missing contact is created as `Started` at the pointer
/// position exactly when the button was pressed this frame.
pub open spec fn reconciled(pre: &InputContext, post: &InputContext) -> bool {
    &&& keys_unchanged(pre, post)
    &&& chars_unchanged(pre, post)
    &&& buttons_unchanged(pre, post)
    &&& pointer_unchanged(pre, post)
    &&& logs_unchanged(pre, post)
    &&& settings_unchanged(pre, post)
    &&& if !pre.simulate_touch_with_mouse {
        touches_unchanged(pre, post)
    } else {
        let mid = pre.mouse_touch_id;
        let mp = pre.mouse_position;
        let released = pre.mouse_released.spec_has(Button::Left);
        let down = pre.mouse_down.spec_has(Button::Left);
        let pressed = pre.mouse_pressed.spec_has(Button::Left);
        &&& forall|o: u64| o != mid ==> post.touches.spec_get(o) == pre.touches.spec_get(o)
        &&& post.touches.spec_get(mid) == (match pre.touches.spec_get(mid) {
            Some(t) => if released {
                Some(Touch { id: mid, phase: TouchPhase::Ended, position: mp })
            } else if !down {
                None::<Touch>
            } else {
                Some(Touch { id: mid, phase: reconciled_phase(t, mp), position: mp })
            },
            None => if pressed {
                Some(Touch { id: mid, phase: TouchPhase::Started, position: mp })
            } else {
                None::<Touch>
            },
        })
    }
}

impl InputContext {
    /// A fresh context: nothing held, nothing queued, no subscribers;
    /// touches drive the mouse by default, the mouse does not drive a
    /// synthetic touch.
    pub fn new() -> (r: InputContext)
        ensures
            ctx_wf(&r),
            r.keys_down.as_set() == Set::<u64>::empty(),
            r.keys_pressed.as_set() == Set::<u64>::empty(),
            r.keys_released.as_set() == Set::<u64>::empty(),
            r.chars_pressed_queue.items@ == Seq::<char>::empty(),
            r.chars_pressed_ui_queue.items@ == Seq::<char>::empty(),
            forall|b: Button| !r.mouse_down.spec_has(b),
            forall|b: Button| !r.mouse_pressed.spec_has(b),
            forall|b: Button| !r.mouse_released.spec_has(b),
            r.mouse_position == (PixelPos { x: 0, y: 0 }),
            r.mouse_wheel_x == 0 && r.mouse_wheel_y == 0,
            r.last_mouse_position == None::<LocalPos>,
            forall|id: u64| r.touches.spec_get(id) == None::<Touch>,
            r.simulate_mouse_with_touch == true,
            r.simulate_touch_with_mouse == false,
            r.mouse_touch_id == MOUSE_TOUCH_ID,
            r.cursor_grabbed == false,
            r.cursor_shown == true,
            r.prevent_quit_event == false,
            r.quit_requested == false,
            logs_view(&r.input_events) == Seq::<Seq<InputEvent>>::empty(),
    {
        let r = InputContext {
            keys_down: KeySet::new(),
            keys_pressed: KeySet::new(),
            keys_released: KeySet::new(),
            chars_pressed_queue: CharQueue::new(),
            chars_pressed_ui_queue: CharQueue::new(),
            mouse_down: ButtonSet::empty(),
            mouse_pressed: ButtonSet::empty(),
            mouse_released: ButtonSet::empty(),
            mouse_position: PixelPos { x: 0, y: 0 },
            mouse_wheel_x: 0,
            mouse_wheel_y: 0,
            last_mouse_position: None,
            touches: TouchMap::new(),
            simulate_mouse_with_touch: true,
            simulate_touch_with_mouse: false,
            mouse_touch_id: MOUSE_TOUCH_ID,
            cursor_grabbed: false,
            cursor_shown: true,
            prevent_quit_event: false,
            quit_requested: false,
            input_events: Vec::new(),
        };
        proof {
            assert(logs_view(&r.input_events) =~= Seq::<Seq<InputEvent>>::empty());
        }
        r
    }

    // Frame state: key queries.

    /// Whether the key went down since the last frame boundary.
    pub fn is_key_pressed(&self, key_code: u64) -> (r: bool)
        ensures
            r == self.keys_pressed.as_set().contains(key_code),
    {
        self.keys_pressed.contains(key_code)
    }

    /// Whether the key is currently held down.
    pub fn is_key_down(&self, key_code: u64) -> (r: bool)
        ensures
            r == self.keys_down.as_set().contains(key_code),
    {
        self.keys_down.contains(key_code)
    }

    /// Whether the key went up since the last frame boundary.
    pub fn is_key_released(&self, key_code: u64) -> (r: bool)
        ensures
            r == self.keys_released.as_set().contains(key_code),
    {
        self.keys_released.contains(key_code)
    }

    /// One key out of the pressed set, or `None` when none went down
    /// since the last frame boundary. Which one is unspecified.
    pub fn get_last_key_pressed(&self) -> (r: Option<u64>)
        ensures
            match r {
                Some(k) => self.keys_pressed.as_set().contains(k),
                None => self.keys_pressed.as_set() == Set::<u64>::empty(),
            },
    {
        self.keys_pressed.any()
    }

    /// Consume the most recently queued character, if any.
    pub fn get_char_pressed(&mut self) -> (r: Option<char>)
        ensures
            r == char_pop_result(old(self).chars_pressed_queue.items@),
            final(self).chars_pressed_queue.items@ == char_pop_rest(
                old(self).chars_pressed_queue.items@,
            ),
            final(self).chars_pressed_ui_queue == old(self).chars_pressed_ui_queue,
            keys_unchanged(old(self), final(self)),
            buttons_unchanged(old(self), final(self)),
            pointer_unchanged(old(self), final(self)),
            touches_unchanged(old(self), final(self)),
            logs_unchanged(old(self), final(self)),
            settings_unchanged(old(self), final(self)),
            ctx_wf(old(self)) ==> ctx_wf(final(self)),
    {
        self.chars_pressed_queue.pop()
    }

    /// Consume the most recently queued character of the UI queue.
    pub fn get_char_pressed_ui(&mut self) -> (r: Option<char>)
        ensures
            r == char_pop_result(old(self).chars_pressed_ui_queue.items@),
            final(self).chars_pressed_ui_queue.items@ == char_pop_rest(
                old(self).chars_pressed_ui_queue.items@,
            ),
            final(self).chars_pressed_queue == old(self).chars_pressed_queue,
            keys_unchanged(old(self), final(self)),
            buttons_unchanged(old(self), final(self)),
            pointer_unchanged(old(self), final(self)),
            touches_unchanged(old(self), final(self)),
            logs_unchanged(old(self), final(self)),
            settings_unchanged(old(self), final(self)),
            ctx_wf(old(self)) ==> ctx_wf(final(self)),
    {
        self.chars_pressed_ui_queue.pop()
    }

    // Frame state: mouse queries.

    /// Whether the button is currently held down.
    pub fn is_mouse_button_down(&self, btn: Button) -> (r: bool)
        ensures
            r == self.mouse_down.spec_has(btn),
    {
        self.mouse_down.has(btn)
    }

    /// Whether the button went down since the last frame boundary.
    pub fn is_mouse_button_pressed(&self, btn: Button) -> (r: bool)
        ensures
            r == self.mouse_pressed.spec_has(btn),
    {
        self.mouse_pressed.has(btn)
    }

    /// Whether the button went up since the last frame boundary.
    pub fn is_mouse_button_released(&self, btn: Button) -> (r: bool)
        ensures
            r == self.mouse_released.spec_has(btn),
    {
        self.mouse_released.has(btn)
    }

    /// The pointer position, in pixels.
    pub fn mouse_position(&self) -> (r: (i32, i32))
        ensures
            r.0 == self.mouse_position.x,
            r.1 == self.mouse_position.y,
    {
        (self.mouse_position.x, self.mouse_position.y)
    }

    /// The wheel movement accumulated since the last frame boundary.
    pub fn mouse_wheel(&self) -> (r: (i64, i64))
        ensures
            r.0 == self.mouse_wheel_x,
            r.1 == self.mouse_wheel_y,
    {
        (self.mouse_wheel_x, self.mouse_wheel_y)
    }

    // Settings.

    /// Whether touch contacts also drive the mouse state.
    pub fn is_simulating_mouse_with_touch(&self) -> (r: bool)
        ensures
            r == self.simulate_mouse_with_touch,
    {
        self.simulate_mouse_with_touch
    }

    /// Choose whether touch contacts also drive the mouse state.
    pub fn simulate_mouse_with_touch(&mut self, option: bool)
        ensures
            *final(self) == (InputContext { simulate_mouse_with_touch: option, ..*old(self) }),
    {
        self.simulate_mouse_with_touch = option;
    }

    /// Whether the left mouse button drives a synthetic touch contact.
    pub fn is_simulating_touch_with_mouse(&self) -> (r: bool)
        ensures
            r == self.simulate_touch_with_mouse,
    {
        self.simulate_touch_with_mouse
    }

    /// Choose whether the left mouse button drives a synthetic touch.
    pub fn simulate_touch_with_mouse(&mut self, option: bool)
        ensures
            *final(self) == (InputContext { simulate_touch_with_mouse: option, ..*old(self) }),
    {
        self.simulate_touch_with_mouse = option;
    }

    /// Ask for the cursor to be constrained to the window; the
    /// windowing layer reads this state off and applies it.
    pub fn set_cursor_grab(&mut self, grab: bool)
        ensures
            *final(self) == (InputContext { cursor_grabbed: grab, ..*old(self) }),
    {
        self.cursor_grabbed = grab;
    }

    /// Ask for the cursor to be shown or hidden; the windowing layer
    /// reads this state off and applies it.
    pub fn show_mouse(&mut self, shown: bool)
        ensures
            *final(self) == (InputContext { cursor_shown: shown, ..*old(self) }),
    {
        self.cursor_shown = shown;
    }

    /// Intercept quit requests instead of letting them end the run.
    pub fn prevent_quit(&mut self)
        ensures
            *final(self) == (InputContext { prevent_quit_event: true, ..*old(self) }),
    {
        self.prevent_quit_event = true;
    }

    /// Whether an intercepted quit request is pending.
    pub fn is_quit_requested(&self) -> (r: bool)
        ensures
            r == self.quit_requested,
    {
        self.quit_requested
    }

    /// Apply a quit request from the platform. Returns whether the
    /// request was intercepted (and the platform quit is to be
    /// cancelled); an intercepted request sets the pending flag.
    pub fn apply_quit_request(&mut self) -> (r: bool)
        ensures
            r == old(self).prevent_quit_event,
            old(self).prevent_quit_event ==> *final(self) == (InputContext {
                quit_requested: true,
                ..*old(self)
            }),
            !old(self).prevent_quit_event ==> *final(self) == *old(self),
    {
        if self.prevent_quit_event {
            self.quit_requested = true;
            true
        } else {
            false
        }
    }

    // Event application.

    /// Apply a key-down event: the key joins `down`, and joins
    /// `pressed` exactly when it was not already down.
    pub fn apply_key_down(&mut self, key_code: u64)
        requires
            ctx_wf(old(self)),
        ensures
            ctx_wf(final(self)),
            final(self).keys_down.as_set() == key_down_down(
                old(self).keys_down.as_set(),
                key_code,
            ),
            final(self).keys_pressed.as_set() == key_down_pressed(
                old(self).keys_down.as_set(),
                old(self).keys_pressed.as_set(),
                key_code,
            ),
            final(self).keys_released == old(self).keys_released,
            chars_unchanged(old(self), final(self)),
            buttons_unchanged(old(self), final(self)),
            pointer_unchanged(old(self), final(self)),
            touches_unchanged(old(self), final(self)),
            logs_unchanged(old(self), final(self)),
            settings_unchanged(old(self), final(self)),
    {
        if !self.keys_down.contains(key_code) {
            self.keys_pressed.insert(key_code);
        }
        self.keys_down.insert(key_code);
    }

    /// Apply a key-up event: the key leaves `down` and joins `released`.
    pub fn apply_key_up(&mut self, key_code: u64)
        requires
            ctx_wf(old(self)),
        ensures
            ctx_wf(final(self)),
            final(self).keys_down.as_set() == key_up_down(old(self).keys_down.as_set(), key_code),
            final(self).keys_released.as_set() == key_up_released(
                old(self).keys_released.as_set(),
                key_code,
            ),
            final(self).keys_pressed == old(self).keys_pressed,
            chars_unchanged(old(self), final(self)),
            buttons_unchanged(old(self), final(self)),
            pointer_unchanged(old(self), final(self)),
            touches_unchanged(old(self), final(self)),
            logs_unchanged(old(self), final(self)),
            settings_unchanged(old(self), final(self)),
    {
        self.keys_down.remove(key_code);
        self.keys_released.insert(key_code);
    }

    /// Apply a character event: the character joins both queues.
    pub fn apply_char(&mut self, character: char)
        ensures
            final(self).chars_pressed_queue.items@ == char_push(
                old(self).chars_pressed_queue.items@,
                character,
            ),
            final(self).chars_pressed_ui_queue.items@ == char_push(
                old(self).chars_pressed_ui_queue.items@,
                character,
            ),
            keys_unchanged(old(self), final(self)),
            buttons_unchanged(old(self), final(self)),
            pointer_unchanged(old(self), final(self)),
            touches_unchanged(old(self), final(self)),
            logs_unchanged(old(self), final(self)),
            settings_unchanged(old(self), final(self)),
            ctx_wf(old(self)) ==> ctx_wf(final(self)),
    {
        self.chars_pressed_queue.push(character);
        self.chars_pressed_ui_queue.push(character);
    }

    /// Apply a mouse-motion event: the pointer position moves.
    pub fn apply_mouse_motion(&mut self, x: i32, y: i32)
        ensures
            *final(self) == (InputContext {
                mouse_position: PixelPos { x, y },
                ..*old(self)
            }),
    {
        self.mouse_position = PixelPos { x, y };
    }

    /// Apply a mouse-wheel event: the movement joins the accumulated
    /// delta, saturating at the ends of `i64`.
    pub fn apply_mouse_wheel(&mut self, dx: i64, dy: i64)
        ensures
            final(self).mouse_wheel_x == sat_add(old(self).mouse_wheel_x as int, dx as int),
            final(self).mouse_wheel_y == sat_add(old(self).mouse_wheel_y as int, dy as int),
            final(self).mouse_position == old(self).mouse_position,
            final(self).last_mouse_position == old(self).last_mouse_position,
            keys_unchanged(old(self), final(self)),
            chars_unchanged(old(self), final(self)),
            buttons_unchanged(old(self), final(self)),
            touches_unchanged(old(self), final(self)),
            logs_unchanged(old(self), final(self)),
            settings_unchanged(old(self), final(self)),
            ctx_wf(old(self)) ==> ctx_wf(final(self)),
    {
        self.mouse_wheel_x = sat_add_i64(self.mouse_wheel_x, dx);
        self.mouse_wheel_y = sat_add_i64(self.mouse_wheel_y, dy);
    }

    /// Apply a button-down event: the pointer moves to the event
    /// position and the button sets take the down transition.
    pub fn apply_mouse_button_down(&mut self, btn: Button, x: i32, y: i32)
        ensures
            button_down_effect(old(self), final(self), btn),
            final(self).mouse_position == (PixelPos { x, y }),
            final(self).mouse_wheel_x == old(self).mouse_wheel_x,
            final(self).mouse_wheel_y == old(self).mouse_wheel_y,
            final(self).last_mouse_position == old(self).last_mouse_position,
            keys_unchanged(old(self), final(self)),
            chars_unchanged(old(self), final(self)),
            touches_unchanged(old(self), final(self)),
            logs_unchanged(old(self), final(self)),
            settings_unchanged(old(self), final(self)),
            ctx_wf(old(self)) ==> ctx_wf(final(self)),
    {
        self.mouse_position = PixelPos { x, y };
        if !self.mouse_down.has(btn) {
            self.mouse_pressed = self.mouse_pressed.with_button(btn);
        }
        self.mouse_down = self.mouse_down.with_button(btn);
    }

    /// Apply a button-up event: the pointer moves to the event position
    /// and the button sets take the up transition.
    pub fn apply_mouse_button_up(&mut self, btn: Button, x: i32, y: i32)
        ensures
            button_up_effect(old(self), final(self), btn),
            final(self).mouse_position == (PixelPos { x, y }),
            final(self).mouse_wheel_x == old(self).mouse_wheel_x,
            final(self).mouse_wheel_y == old(self).mouse_wheel_y,
            final(self).last_mouse_position == old(self).last_mouse_position,
            keys_unchanged(old(self), final(self)),
            chars_unchanged(old(self), final(self)),
            touches_unchanged(old(self), final(self)),
            logs_unchanged(old(self), final(self)),
            settings_unchanged(old(self), final(self)),
            ctx_wf(old(self)) ==> ctx_wf(final(self)),
    {
        self.mouse_position = PixelPos { x, y };
        self.mouse_down = self.mouse_down.without_button(btn);
        self.mouse_released = self.mouse_released.with_button(btn);
    }

    /// Apply a touch-update event: the contact is stored under its id;
    /// when touches drive the mouse, the event also moves the pointer
    /// and, on `Started` and `Ended`/`Cancelled`, presses or releases
    /// the left button.
    pub fn apply_touch(&mut self, id: u64, phase: TouchPhase, x: i32, y: i32)
        requires
            ctx_wf(old(self)),
            id != old(self).mouse_touch_id,
        ensures
            ctx_wf(final(self)),
            final(self).touches.spec_get(id) == Some(
                Touch { id, phase, position: PixelPos { x, y } },
            ),
            forall|o: u64|
                o != id ==> final(self).touches.spec_get(o) == old(self).touches.spec_get(o),
            keys_unchanged(old(self), final(self)),
            chars_unchanged(old(self), final(self)),
            logs_unchanged(old(self), final(self)),
            settings_unchanged(old(self), final(self)),
            final(self).mouse_wheel_x == old(self).mouse_wheel_x,
            final(self).mouse_wheel_y == old(self).mouse_wheel_y,
            final(self).last_mouse_position == old(self).last_mouse_position,
            !old(self).simulate_mouse_with_touch ==> buttons_unchanged(old(self), final(self))
                && final(self).mouse_position == old(self).mouse_position,
            old(self).simulate_mouse_with_touch ==> final(self).mouse_position == (PixelPos {
                x,
                y,
            }) && (match phase {
                TouchPhase::Started => button_down_effect(old(self), final(self), Button::Left),
                TouchPhase::Moved | TouchPhase::Stationary => buttons_unchanged(
                    old(self),
                    final(self),
                ),
                TouchPhase::Ended | TouchPhase::Cancelled => button_up_effect(
                    old(self),
                    final(self),
                    Button::Left,
                ),
            }),
    {
        self.touches.upsert(Touch { id, phase, position: PixelPos { x, y } });
        if self.simulate_mouse_with_touch {
            match phase {
                TouchPhase::Started => self.apply_mouse_button_down(Button::Left, x, y),
                TouchPhase::Moved | TouchPhase::Stationary => self.apply_mouse_motion(x, y),
                TouchPhase::Ended | TouchPhase::Cancelled => self.apply_mouse_button_up(
                    Button::Left,
                    x,
                    y,
                ),
            }
        }
    }

    /// Open a new frame: the per-frame sets and the wheel delta are
    /// cleared, held-down state persists, and contacts whose phase was
    /// `Ended` or `Cancelled` are dropped.
    pub fn new_frame(&mut self)
        requires
            ctx_wf(old(self)),
        ensures
            ctx_wf(final(self)),
            final(self).keys_down == old(self).keys_down,
            final(self).keys_pressed.as_set() == Set::<u64>::empty(),
            final(self).keys_released.as_set() == Set::<u64>::empty(),
            final(self).mouse_down == old(self).mouse_down,
            forall|b: Button| !final(self).mouse_pressed.spec_has(b),
            forall|b: Button| !final(self).mouse_released.spec_has(b),
            final(self).mouse_wheel_x == 0 && final(self).mouse_wheel_y == 0,
            final(self).mouse_position == old(self).mouse_position,
            final(self).last_mouse_position == old(self).last_mouse_position,
            forall|id: u64|
                final(self).touches.spec_get(id) == (match old(self).touches.spec_get(id) {
                    Some(t) => if touch_active(t) { Some(t) } else { None::<Touch> },
                    None => None::<Touch>,
                }),
            chars_unchanged(old(self), final(self)),
            logs_unchanged(old(self), final(self)),
            settings_unchanged(old(self), final(self)),
    {
        self.keys_pressed.clear();
        self.keys_released.clear();
        self.mouse_pressed = ButtonSet::empty();
        self.mouse_released = ButtonSet::empty();
        self.mouse_wheel_x = 0;
        self.mouse_wheel_y = 0;
        self.touches.retain_active();
    }

    // The touch/mouse reconciler and the touch queries.

    /// Reconcile the synthetic mouse contact with the current button
    /// state; every touch query runs this lazily first.
    pub fn update_mouse_touch_if_necessary(&mut self)
        requires
            ctx_wf(old(self)),
        ensures
            ctx_wf(final(self)),
            reconciled(old(self), final(self)),
    {
        if self.simulate_touch_with_mouse {
            let mid = self.mouse_touch_id;
            let mp = self.mouse_position;
            match self.touches.get(mid) {
                Some(touch) => {
                    if self.mouse_released.has(Button::Left) {
                        self.touches.upsert(
                            Touch { id: mid, phase: TouchPhase::Ended, position: mp },
                        );
                    } else if !self.mouse_down.has(Button::Left) {
                        self.touches.remove_id(mid);
                    } else {
                        let phase = if touch.phase == TouchPhase::Ended {
                            TouchPhase::Ended
                        } else if touch.position == mp {
                            TouchPhase::Stationary
                        } else {
                            TouchPhase::Moved
                        };
                        self.touches.upsert(Touch { id: mid, phase, position: mp });
                    }
                }
                None => {
                    if self.mouse_pressed.has(Button::Left) {
                        self.touches.upsert(
                            Touch { id: mid, phase: TouchPhase::Started, position: mp },
                        );
                    }
                }
            }
        }
    }

    /// The touch contacts, positions in pixels; reconciles first.
    pub fn touches(&mut self) -> (r: Vec<Touch>)
        requires
            ctx_wf(old(self)),
        ensures
            ctx_wf(final(self)),
            reconciled(old(self), final(self)),
            r@ == final(self).touches.items@,
    {
        self.update_mouse_touch_if_necessary();
        self.touches.all()
    }

    /// The touch contacts with positions converted to the local range
    /// [-1, 1]; reconciles first.
    pub fn touches_local(&mut self, screen_w: i32, screen_h: i32) -> (r: Vec<LocalTouch>)
        requires
            ctx_wf(old(self)),
            0 < screen_w,
            0 < screen_h,
        ensures
            ctx_wf(final(self)),
            reconciled(old(self), final(self)),
            r@.len() == final(self).touches.items@.len(),
            forall|i: int|
                0 <= i < r@.len() ==> (r@[i].id == final(self).touches.items@[i].id
                    && r@[i].phase == final(self).touches.items@[i].phase && is_convert(
                    r@[i].position,
                    final(self).touches.items@[i].position,
                    screen_w as int,
                    screen_h as int,
                )),
    {
        self.update_mouse_touch_if_necessary();
        let mut r: Vec<LocalTouch> = Vec::new();
        let n = self.touches.items.len();
        let mut i: usize = 0;
        while i < n
            invariant
                i <= n,
                n == self.touches.items@.len(),
                0 < screen_w,
                0 < screen_h,
                r@.len() == i,
                forall|j: int|
                    0 <= j < i ==> (r@[j].id == self.touches.items@[j].id
                        && r@[j].phase == self.touches.items@[j].phase && is_convert(
                        r@[j].position,
                        self.touches.items@[j].position,
                        screen_w as int,
                        screen_h as int,
                    )),
            decreases n - i,
        {
            let t = self.touches.items[i];
            let position = convert_to_local(t.position, screen_w, screen_h);
            r.push(LocalTouch { id: t.id, phase: t.phase, position });
            i += 1;
        }
        r
    }

    // Pointer queries in local coordinates.

    /// The pointer position in the local range [-1, 1].
    pub fn mouse_position_local(&self, screen_w: i32, screen_h: i32) -> (r: LocalPos)
        requires
            0 < screen_w,
            0 < screen_h,
        ensures
            is_convert(r, self.mouse_position, screen_w as int, screen_h as int),
            local_wf(r),
    {
        convert_to_local(self.mouse_position, screen_w, screen_h)
    }

    /// The difference `previous - current` of the pointer's local
    /// position, where `previous` is whatever the last call of this
    /// query stored; the first call yields a zero vector, and the
    /// current local position is stored for the next call.
    pub fn mouse_delta_position(&mut self, screen_w: i32, screen_h: i32) -> (r: LocalPos)
        requires
            ctx_wf(old(self)),
            0 < screen_w,
            0 < screen_h,
        ensures
            ctx_wf(final(self)),
            (match final(self).last_mouse_position {
                Some(cur) => is_convert(
                    cur,
                    old(self).mouse_position,
                    screen_w as int,
                    screen_h as int,
                ) && (match old(self).last_mouse_position {
                    Some(prev) => is_local_sub(r, prev, cur),
                    None => is_local_sub(r, cur, cur),
                }),
                None => false,
            }),
            old(self).last_mouse_position == None::<LocalPos> ==> r.x.num == 0 && r.y.num == 0,
            0 < r.x.den && 0 < r.y.den,
            final(self).mouse_position == old(self).mouse_position,
            final(self).mouse_wheel_x == old(self).mouse_wheel_x,
            final(self).mouse_wheel_y == old(self).mouse_wheel_y,
            keys_unchanged(old(self), final(self)),
            chars_unchanged(old(self), final(self)),
            buttons_unchanged(old(self), final(self)),
            touches_unchanged(old(self), final(self)),
            logs_unchanged(old(self), final(self)),
            settings_unchanged(old(self), final(self)),
    {
        let cur = convert_to_local(self.mouse_position, screen_w, screen_h);
        let prev = match self.last_mouse_position {
            Some(p) => p,
            None => cur,
        };
        let r = LocalPos { x: frac_sub(prev.x, cur.x), y: frac_sub(prev.y, cur.y) };
        self.last_mouse_position = Some(cur);
        r
    }

    // The subscriber registry and event replay.

    /// Register one more subscriber: its id is the next dense index,
    /// starting at zero, and its log starts empty.
    pub fn register_input_subscriber(&mut self) -> (r: usize)
        ensures
            r == old(self).input_events@.len(),
            logs_view(&final(self).input_events) == register_t(
                logs_view(&old(self).input_events),
            ),
            keys_unchanged(old(self), final(self)),
            chars_unchanged(old(self), final(self)),
            buttons_unchanged(old(self), final(self)),
            pointer_unchanged(old(self), final(self)),
            touches_unchanged(old(self), final(self)),
            settings_unchanged(old(self), final(self)),
            ctx_wf(old(self)) ==> ctx_wf(final(self)),
    {
        self.input_events.push(Vec::new());
        proof {
            assert(logs_view(&self.input_events) =~= register_t(
                logs_view(&old(self).input_events),
            ));
        }
        self.input_events.len() - 1
    }

    /// Record one raw event: it joins every subscriber's log.
    pub fn record(&mut self, e: InputEvent)
        ensures
            logs_view(&final(self).input_events) == record_t(
                logs_view(&old(self).input_events),
                e,
            ),
            keys_unchanged(old(self), final(self)),
            chars_unchanged(old(self), final(self)),
            buttons_unchanged(old(self), final(self)),
            pointer_unchanged(old(self), final(self)),
            touches_unchanged(old(self), final(self)),
            settings_unchanged(old(self), final(self)),
            ctx_wf(old(self)) ==> ctx_wf(final(self)),
    {
        let mut logs: Vec<Vec<InputEvent>> = Vec::new();
        core::mem::swap(&mut self.input_events, &mut logs);
        let n = logs.len();
        let mut i: usize = 0;
        while i < n
            invariant
                i <= n,
                n == logs@.len(),
                logs@.len() == old(self).input_events@.len(),
                forall|j: int| 0 <= j < i ==> logs@[j]@ == old(self).input_events@[j]@.push(e),
                forall|j: int| i <= j < n ==> logs@[j] == old(self).input_events@[j],
            decreases n - i,
        {
            let log = &mut logs[i];
            log.push(e);
            i += 1;
        }
        self.input_events = logs;
        proof {
            assert(logs_view(&self.input_events) =~= record_t(
                logs_view(&old(self).input_events),
                e,
            ));
        }
    }

    /// Take out and return one subscriber's queued events, in arrival
    /// order; the log is left empty. An unregistered id is refused and
    /// nothing changes.
    pub fn drain_input_events(&mut self, subscriber: usize) -> (r: Result<
        Vec<InputEvent>,
        SubscriberError,
    >)
        ensures
            r is Ok <==> subscriber < old(self).input_events@.len(),
            (match r {
                Ok(events) => events@ == logs_view(&old(self).input_events)[subscriber as int]
                    && logs_view(&final(self).input_events) == drain_t(
                    logs_view(&old(self).input_events),
                    subscriber as int,
                ),
                Err(err) => err == SubscriberError::UnknownSubscriber && *final(self) == *old(
                    self,
                ),
            }),
            keys_unchanged(old(self), final(self)),
            chars_unchanged(old(self), final(self)),
            buttons_unchanged(old(self), final(self)),
            pointer_unchanged(old(self), final(self)),
            touches_unchanged(old(self), final(self)),
            settings_unchanged(old(self), final(self)),
            ctx_wf(old(self)) ==> ctx_wf(final(self)),
    {
        if subscriber >= self.input_events.len() {
            return Err(SubscriberError::UnknownSubscriber);
        }
        let mut taken: Vec<InputEvent> = Vec::new();
        let slot = &mut self.input_events[subscriber];
        core::mem::swap(slot, &mut taken);
        proof {
            assert(logs_view(&self.input_events) =~= drain_t(
                logs_view(&old(self).input_events),
                subscriber as int,
            ));
        }
        Ok(taken)
    }

    /// Replay every event recorded for the subscriber, in arrival
    /// order, into the handler, then leave that subscriber's log
    /// empty. An unregistered id is refused and nothing changes.
    pub fn repeat_all_miniquad_input<T: InputEventHandler>(
        &mut self,
        t: &mut T,
        subscriber: usize,
    ) -> (r: Result<(), SubscriberError>)
        ensures
            r is Ok <==> subscriber < old(self).input_events@.len(),
            (match r {
                Ok(_) => logs_view(&final(self).input_events) == drain_t(
                    logs_view(&old(self).input_events),
                    subscriber as int,
                ),
                Err(err) => err == SubscriberError::UnknownSubscriber && *final(self) == *old(
                    self,
                ),
            }),
            keys_unchanged(old(self), final(self)),
            chars_unchanged(old(self), final(self)),
            buttons_unchanged(old(self), final(self)),
            pointer_unchanged(old(self), final(self)),
            touches_unchanged(old(self), final(self)),
            settings_unchanged(old(self), final(self)),
            ctx_wf(old(self)) ==> ctx_wf(final(self)),
    {
        let events = match self.drain_input_events(subscriber) {
            Ok(events) => events,
            Err(err) => {
                return Err(err);
            },
        };
        let n = events.len();
        let mut i: usize = 0;
        while i < n
            invariant
                i <= n,
                n == events@.len(),
            decreases n - i,
        {
            t.handle(events[i]);
            i += 1;
        }
        Ok(())
    }
}

// Laws.

/// Law: a key-down event while the key is not held registers it as
/// both down and pressed; a key-down repeated while the key is already
/// held leaves the pressed set as it was; keys other than the one the
/// event names keep their membership in both sets.
pub proof fn lemma_key_down_law(down: Set<u64>, pressed: Set<u64>, k: u64)
    ensures
        key_down_down(down, k).contains(k),
        !down.contains(k) ==> key_down_pressed(down, pressed, k).contains(k),
        down.contains(k) ==> key_down_pressed(down, pressed, k) == pressed,
        key_down_pressed(key_down_down(down, k), key_down_pressed(down, pressed, k), k)
            == key_down_pressed(down, pressed, k),
        forall|k2: u64| k2 != k ==> key_down_down(down, k).contains(k2) == down.contains(k2),
        forall|k2: u64|
            k2 != k ==> key_down_pressed(down, pressed, k).contains(k2) == pressed.contains(k2),
{
}

/// Law: a key-up event takes the key out of the down set, so a
/// down-query afterwards answers false, and puts it into the released
/// set; other keys keep their membership in both sets.
pub proof fn lemma_key_up_law(down: Set<u64>, released: Set<u64>, k: u64)
    ensures
        !key_up_down(down, k).contains(k),
        key_up_released(released, k).contains(k),
        forall|k2: u64| k2 != k ==> key_up_down(down, k).contains(k2) == down.contains(k2),
        forall|k2: u64|
            k2 != k ==> key_up_released(released, k).contains(k2) == released.contains(k2),
{
}

/// Law: recorded events replay per subscriber, in arrival order,
/// exactly once. After two subscribers register and two events are
/// recorded, both logs hold exactly those two events in order;
/// draining the first empties only its log, so a second drain of it
/// yields nothing, while the other log still holds both events.
pub proof fn lemma_subscriber_replay(logs: Seq<Seq<InputEvent>>, e1: InputEvent, e2: InputEvent)
    ensures
        ({
            let a = logs.len() as int;
            let b = a + 1;
            let full = record_t(record_t(register_t(register_t(logs)), e1), e2);
            &&& full[a] == seq![e1, e2]
            &&& full[b] == seq![e1, e2]
            &&& drain_t(full, a)[a] == Seq::<InputEvent>::empty()
            &&& drain_t(full, a)[b] == seq![e1, e2]
            &&& drain_t(drain_t(full, a), a)[a] == Seq::<InputEvent>::empty()
        }),
{
    let a = logs.len() as int;
    let b = a + 1;
    let l0 = register_t(register_t(logs));
    let full = record_t(record_t(l0, e1), e2);
    assert(l0[a] =~= Seq::<InputEvent>::empty());
    assert(l0[b] =~= Seq::<InputEvent>::empty());
    assert(full[a] =~= seq![e1, e2]);
    assert(full[b] =~= seq![e1, e2]);
}

/// Law: a consumer observes the synthetic contact's `Ended` phase, and
/// the contact is gone after the next frame boundary. When a
/// reconciliation pass finds the contact while the left button was
/// released this frame, the pass leaves the contact present with phase
/// `Ended` at the pointer position; the frame boundary then drops it,
/// so the next pass finds nothing to resurrect.
pub proof fn lemma_ended_touch_is_dropped(
    pre: InputContext,
    post: InputContext,
    framed: InputContext,
)
    requires
        pre.simulate_touch_with_mouse,
        pre.mouse_released.spec_has(Button::Left),
        pre.touches.spec_get(pre.mouse_touch_id) is Some,
        reconciled(&pre, &post),
        forall|id: u64|
            framed.touches.spec_get(id) == (match post.touches.spec_get(id) {
                Some(t) => if touch_active(t) { Some(t) } else { None::<Touch> },
                None => None::<Touch>,
            }),
    ensures
        post.touches.spec_get(pre.mouse_touch_id) == Some(
            Touch {
                id: pre.mouse_touch_id,
                phase: TouchPhase::Ended,
                position: pre.mouse_position,
            },
        ),
        framed.touches.spec_get(pre.mouse_touch_id) == None::<Touch>,
{
}

/// Saturating addition within `i64`.
fn sat_add_i64(a: i64, b: i64) -> (r: i64)
    ensures
        r == sat_add(a as int, b as int),
{
    if b >= 0 {
        if a > i64::MAX - b {
            i64::MAX
        } else {
            a + b
        }
    } else {
        if a < i64::MIN - b {
            i64::MIN
        } else {
            a + b
        }
    }
}

} // verus!

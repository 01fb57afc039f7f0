//! Input events of the host window and the state they accumulate into.

use crate::units::{clamp_i32, saturating_sum_i32};
use vstd::prelude::*;

verus! {

/// What one pointer nudge adds to or takes from an accumulator, in
/// thousandths: 0.1.
pub const NUDGE_STEP: i32 = 100;

/// The move speed of a fresh input state, in thousandths: 1.0.
pub const INITIAL_MOVE_SPEED: i32 = 1000;

/// Whether a key or button went down or up.
#[derive(Clone, Copy, Debug, PartialEq, Eq, Structural)]
pub enum ElementState {
    Pressed,
    Released,
}

/// The keys that mean something to the renderer; every other key, and a key
/// without a code, is `Other`.
#[derive(Clone, Copy, Debug, PartialEq, Eq, Structural)]
pub enum Key {
    Escape,
    W,
    A,
    S,
    D,
    Space,
    LControl,
    RShift,
    Up,
    Down,
    Left,
    Right,
    Other,
}

/// A mouse button.
#[derive(Clone, Copy, Debug, PartialEq, Eq, Structural)]
pub enum MouseButton {
    Left,
    Right,
    Middle,
    Other,
}

/// How far the wheel was turned, in thousandths of a line or of a pixel.
#[derive(Clone, Copy, Debug, PartialEq, Eq, Structural)]
pub enum ScrollDelta {
    Lines { x: i32, y: i32 },
    Pixels { x: i32, y: i32 },
}

/// One event of the host window.
#[derive(Clone, Copy, Debug, PartialEq, Eq, Structural)]
pub enum HostEvent {
    /// The user asked to close the window.
    CloseRequested,
    /// The surface changed its size or its scale factor.
    Resized,
    /// A key went down or up.
    Keyboard { key: Key, state: ElementState },
    /// A mouse button went down or up.
    MouseInput { state: ElementState, button: MouseButton },
    /// The cursor moved to a position, in thousandths of a pixel.
    CursorMoved { x: i32, y: i32 },
    /// The wheel was turned.
    MouseWheel { delta: ScrollDelta },
    /// Any other event.
    Other,
}

/// An event together with the size of the window when it was seen.
#[derive(Clone, Copy, Debug, PartialEq, Eq)]
pub struct ObservedEvent {
    pub window_size: [u32; 2],
    pub event: HostEvent,
}

/// The two pointer accumulators, in thousandths.
#[derive(Clone, Copy, Debug, PartialEq, Eq, Structural)]
pub struct PointerDelta {
    pub x: i32,
    pub y: i32,
}

/// The commands gathered from the events of one iteration of the host loop.
#[derive(Clone, Copy, Debug, PartialEq, Eq)]
pub struct InputState {
    /// Width and height of the window when the last event was handled.
    pub window_size: [u32; 2],
    pub forward: bool,
    pub backward: bool,
    pub right: bool,
    pub left: bool,
    pub up: bool,
    pub down: bool,
    pub toggle_full_screen: bool,
    pub should_quit: bool,
    /// Multiplier of every translation, in thousandths. The wheel changes
    /// it; nothing bounds it but the range of `i32`.
    pub move_speed: i32,
    /// Accumulated pointer nudges.
    pub mouse_pos: PointerDelta,
}

/// Whether `state` is `Pressed`.
pub open spec fn is_pressed(state: ElementState) -> bool {
    state == ElementState::Pressed
}

/// Whether `state` is `Pressed`.
pub fn state_is_pressed(state: ElementState) -> (pressed: bool)
    ensures
        pressed == is_pressed(state),
{
    match state {
        ElementState::Pressed => true,
        ElementState::Released => false,
    }
}

/// The part of a wheel event that changes the move speed: its vertical
/// component, whatever its unit.
pub open spec fn scroll_amount(delta: ScrollDelta) -> i32 {
    match delta {
        ScrollDelta::Lines { x, y } => y,
        ScrollDelta::Pixels { x, y } => y,
    }
}

impl InputState {
    /// The state before any event: nothing pressed, speed 1.0, accumulators
    /// at zero.
    pub open spec fn initial(window_size: [u32; 2]) -> InputState {
        InputState {
            window_size,
            forward: false,
            backward: false,
            right: false,
            left: false,
            up: false,
            down: false,
            toggle_full_screen: false,
            should_quit: false,
            move_speed: INITIAL_MOVE_SPEED,
            mouse_pos: PointerDelta { x: 0, y: 0 },
        }
    }

    /// The state at the end of a frame: the full-screen request is withdrawn
    /// and everything else stays.
    pub open spec fn after_reset(self) -> InputState {
        InputState { toggle_full_screen: false, ..self }
    }

    /// The state after a key event. The command keys follow the key: down
    /// sets the flag, up clears it. An arrow key nudges an accumulator by
    /// `NUDGE_STEP` on every event, whether the key went down or up.
    pub open spec fn after_key(self, key: Key, state: ElementState) -> InputState {
        match key {
            Key::Escape => InputState { should_quit: is_pressed(state), ..self },
            Key::W => InputState { forward: is_pressed(state), ..self },
            Key::A => InputState { left: is_pressed(state), ..self },
            Key::S => InputState { backward: is_pressed(state), ..self },
            Key::D => InputState { right: is_pressed(state), ..self },
            Key::Space => InputState { up: is_pressed(state), ..self },
            Key::LControl => InputState { down: is_pressed(state), ..self },
            Key::RShift => InputState { toggle_full_screen: is_pressed(state), ..self },
            Key::Up => InputState {
                mouse_pos: PointerDelta {
                    x: self.mouse_pos.x,
                    y: clamp_i32(self.mouse_pos.y + NUDGE_STEP),
                },
                ..self
            },
            Key::Down => InputState {
                mouse_pos: PointerDelta {
                    x: self.mouse_pos.x,
                    y: clamp_i32(self.mouse_pos.y - NUDGE_STEP),
                },
                ..self
            },
            Key::Left => InputState {
                mouse_pos: PointerDelta {
                    x: clamp_i32(self.mouse_pos.x + NUDGE_STEP),
                    y: self.mouse_pos.y,
                },
                ..self
            },
            Key::Right => InputState {
                mouse_pos: PointerDelta {
                    x: clamp_i32(self.mouse_pos.x - NUDGE_STEP),
                    y: self.mouse_pos.y,
                },
                ..self
            },
            Key::Other => self,
        }
    }

    /// The state after a wheel event: the vertical amount is added to the
    /// move speed.
    pub open spec fn after_scroll(self, delta: ScrollDelta) -> InputState {
        InputState {
            move_speed: clamp_i32(self.move_speed + scroll_amount(delta)),
            ..self
        }
    }

    /// The state after one event seen at a given window size. Key and wheel
    /// events act as `after_key` and `after_scroll` say; every other event
    /// only records the window size.
    pub open spec fn after_event(self, window_size: [u32; 2], event: HostEvent) -> InputState {
        let sized = InputState { window_size, ..self };
        match event {
            HostEvent::Keyboard { key, state } => sized.after_key(key, state),
            HostEvent::MouseWheel { delta } => sized.after_scroll(delta),
            _ => sized,
        }
    }

    /// The state after a run of events, applied in order.
    pub open spec fn after_events(self, events: Seq<ObservedEvent>) -> InputState
        decreases events.len(),
    {
        if events.len() == 0 {
            self
        } else {
            self.after_events(events.drop_last()).after_event(
                events.last().window_size,
                events.last().event,
            )
        }
    }

    /// The state before any event.
    pub fn new(window_size: [u32; 2]) -> (input: InputState)
        ensures
            input == InputState::initial(window_size),
    {
        InputState {
            window_size,
            forward: false,
            backward: false,
            right: false,
            left: false,
            up: false,
            down: false,
            toggle_full_screen: false,
            should_quit: false,
            move_speed: INITIAL_MOVE_SPEED,
            mouse_pos: PointerDelta { x: 0, y: 0 },
        }
    }

    /// Withdraws the full-screen request at the end of a frame.
    pub fn reset(&mut self)
        ensures
            *final(self) == old(self).after_reset(),
    {
        self.toggle_full_screen = false;
    }

    /// Records the window size and applies one event.
    pub fn handle_input(&mut self, window_size: [u32; 2], event: &HostEvent)
        ensures
            *final(self) == old(self).after_event(window_size, *event),
    {
        self.window_size = window_size;
        match event {
            HostEvent::Keyboard { key, state } => self.on_keyboard_event(*key, *state),
            HostEvent::MouseInput { state, button } => self.on_mouse_click_event(*state, *button),
            HostEvent::CursorMoved { x, y } => self.on_cursor_moved_event(*x, *y),
            HostEvent::MouseWheel { delta } => self.on_mouse_wheel_event(delta),
            _ => {},
        }
    }

    /// Applies a key event.
    pub fn on_keyboard_event(&mut self, key: Key, state: ElementState)
        ensures
            *final(self) == old(self).after_key(key, state),
    {
        match key {
            Key::Escape => self.should_quit = state_is_pressed(state),
            Key::W => self.forward = state_is_pressed(state),
            Key::A => self.left = state_is_pressed(state),
            Key::S => self.backward = state_is_pressed(state),
            Key::D => self.right = state_is_pressed(state),
            Key::Space => self.up = state_is_pressed(state),
            Key::LControl => self.down = state_is_pressed(state),
            Key::RShift => self.toggle_full_screen = state_is_pressed(state),
            Key::Up => self.mouse_pos.y = saturating_sum_i32(
                self.mouse_pos.y,
                NUDGE_STEP,
            ),
            Key::Down => self.mouse_pos.y = saturating_sum_i32(
                self.mouse_pos.y,
                -NUDGE_STEP,
            ),
            Key::Left => self.mouse_pos.x = saturating_sum_i32(
                self.mouse_pos.x,
                NUDGE_STEP,
            ),
            Key::Right => self.mouse_pos.x = saturating_sum_i32(
                self.mouse_pos.x,
                -NUDGE_STEP,
            ),
            Key::Other => (),
        }
    }

    /// Applies a wheel event.
    pub fn on_mouse_wheel_event(&mut self, delta: &ScrollDelta)
        ensures
            *final(self) == old(self).after_scroll(*delta),
    {
        let change: i32 = match delta {
            ScrollDelta::Lines { x, y } => *y,
            ScrollDelta::Pixels { x, y } => *y,
        };
        self.move_speed = saturating_sum_i32(self.move_speed, change);
    }

    /// A cursor position changes nothing: the accumulators follow the arrow
    /// keys alone.
    pub fn on_cursor_moved_event(&mut self, x: i32, y: i32)
        ensures
            *final(self) == *old(self),
    {
    }

    /// No mouse button is bound to a command.
    pub fn on_mouse_click_event(&mut self, state: ElementState, button: MouseButton)
        ensures
            *final(self) == *old(self),
    {
    }
}

/// Whether `event` is the full-screen key going down.
pub open spec fn is_full_screen_press(event: HostEvent) -> bool {
    event == (HostEvent::Keyboard { key: Key::RShift, state: ElementState::Pressed })
}

/// Whether `event` is the full-screen key going up.
pub open spec fn is_full_screen_release(event: HostEvent) -> bool {
    event == (HostEvent::Keyboard { key: Key::RShift, state: ElementState::Released })
}

/// Whether `event` is one of `events`.
pub open spec fn has_event(events: Seq<ObservedEvent>, event: HostEvent) -> bool {
    exists|i: int| 0 <= i < events.len() && (#[trigger] events[i]).event == event
}

/// Whether the window was asked to close by one of `events`.
pub open spec fn close_requested(events: Seq<ObservedEvent>) -> bool {
    has_event(events, HostEvent::CloseRequested)
}

/// Whether one of `events` says that the geometry of the surface changed.
pub open spec fn geometry_changed(events: Seq<ObservedEvent>) -> bool {
    has_event(events, HostEvent::Resized)
}

/// An event is among the first `i + 1` of a run if it is among the first
/// `i` or is the one after them.
pub proof fn lemma_has_event_step(events: Seq<ObservedEvent>, i: int, event: HostEvent)
    requires
        0 <= i < events.len(),
    ensures
        has_event(events.take(i + 1), event) == (has_event(events.take(i), event)
            || events[i].event == event),
{
    let before = events.take(i);
    let now = events.take(i + 1);
    if has_event(before, event) {
        let j = choose|j: int| 0 <= j < before.len() && (#[trigger] before[j]).event == event;
        assert(now[j].event == event);
    }
    if events[i].event == event {
        assert(now[i].event == event);
    }
    if has_event(now, event) && events[i].event != event {
        let j = choose|j: int| 0 <= j < now.len() && (#[trigger] now[j]).event == event;
        assert(before[j].event == event);
    }
}

/// Whether the full-screen key went down in `events` and did not go up
/// again after the last time it did.
pub open spec fn full_screen_pressed_last(events: Seq<ObservedEvent>) -> bool {
    exists|i: int|
        0 <= i < events.len() && is_full_screen_press((#[trigger] events[i]).event) && forall|
            j: int,
        |
            i < j < events.len() ==> !is_full_screen_release((#[trigger] events[j]).event)
}

/// The full-screen request lasts one frame. The reset at the end of a frame
/// withdraws it whatever the state of the key, and at the end of the next
/// frame it stands only if the key went down during that frame: exactly when
/// the key went down and did not go up again afterwards.
pub proof fn lemma_full_screen_request_lasts_one_frame(
    input: InputState,
    events: Seq<ObservedEvent>,
)
    ensures
        !input.after_reset().toggle_full_screen,
        input.after_reset().after_events(events).toggle_full_screen == full_screen_pressed_last(
            events,
        ),
    decreases events.len(),
{
    if events.len() > 0 {
        let earlier = events.drop_last();
        let last = events.last().event;
        lemma_full_screen_request_lasts_one_frame(input, earlier);
        if !is_full_screen_press(last) && !is_full_screen_release(last) {
            // The last event leaves the request as the earlier events made
            // it, and what witnesses a press in one run does so in the other.
            if full_screen_pressed_last(earlier) {
                let i = choose|i: int|
                    0 <= i < earlier.len() && is_full_screen_press((#[trigger] earlier[i]).event)
                        && forall|j: int|
                        i < j < earlier.len() ==> !is_full_screen_release(
                            (#[trigger] earlier[j]).event,
                        );
                assert(events[i] == earlier[i]);
                assert forall|j: int| i < j < events.len() implies !is_full_screen_release(
                    (#[trigger] events[j]).event,
                ) by {
                    if j < earlier.len() {
                        assert(events[j] == earlier[j]);
                    }
                }
            }
            if full_screen_pressed_last(events) {
                let i = choose|i: int|
                    0 <= i < events.len() && is_full_screen_press((#[trigger] events[i]).event)
                        && forall|j: int|
                        i < j < events.len() ==> !is_full_screen_release(
                            (#[trigger] events[j]).event,
                        );
                assert(earlier[i] == events[i]);
                assert forall|j: int| i < j < earlier.len() implies !is_full_screen_release(
                    (#[trigger] earlier[j]).event,
                ) by {
                    assert(earlier[j] == events[j]);
                }
            }
        }
    }
}

} // verus!

use rayvox::input::{
    state_is_pressed, ElementState, HostEvent, InputState, Key, MouseButton, PointerDelta,
    ScrollDelta, INITIAL_MOVE_SPEED, NUDGE_STEP,
};

fn fresh() -> InputState {
    InputState::new([1280, 720])
}

fn key(key: Key, state: ElementState) -> HostEvent {
    HostEvent::Keyboard { key, state }
}

#[test]
fn new_input_state_has_nothing_pressed() {
    let input = fresh();
    assert_eq!(
        input,
        InputState {
            window_size: [1280, 720],
            forward: false,
            backward: false,
            right: false,
            left: false,
            up: false,
            down: false,
            toggle_full_screen: false,
            should_quit: false,
            move_speed: 1000,
            mouse_pos: PointerDelta { x: 0, y: 0 },
        }
    );
    assert_eq!(INITIAL_MOVE_SPEED, 1000);
    assert_eq!(NUDGE_STEP, 100);
}

#[test]
fn pressed_is_pressed_and_released_is_not() {
    assert!(state_is_pressed(ElementState::Pressed));
    assert!(!state_is_pressed(ElementState::Released));
}

#[test]
fn command_keys_follow_the_key() {
    let mut input = fresh();
    input.on_keyboard_event(Key::W, ElementState::Pressed);
    assert_eq!(input, InputState { forward: true, ..fresh() });
    input.on_keyboard_event(Key::W, ElementState::Released);
    assert_eq!(input, fresh());

    input.on_keyboard_event(Key::A, ElementState::Pressed);
    assert_eq!(input, InputState { left: true, ..fresh() });
    input.on_keyboard_event(Key::A, ElementState::Released);
    input.on_keyboard_event(Key::S, ElementState::Pressed);
    assert_eq!(input, InputState { backward: true, ..fresh() });
    input.on_keyboard_event(Key::S, ElementState::Released);
    input.on_keyboard_event(Key::D, ElementState::Pressed);
    assert_eq!(input, InputState { right: true, ..fresh() });
    input.on_keyboard_event(Key::D, ElementState::Released);
    input.on_keyboard_event(Key::Space, ElementState::Pressed);
    assert_eq!(input, InputState { up: true, ..fresh() });
    input.on_keyboard_event(Key::Space, ElementState::Released);
    input.on_keyboard_event(Key::LControl, ElementState::Pressed);
    assert_eq!(input, InputState { down: true, ..fresh() });
    input.on_keyboard_event(Key::LControl, ElementState::Released);
    input.on_keyboard_event(Key::RShift, ElementState::Pressed);
    assert_eq!(input, InputState { toggle_full_screen: true, ..fresh() });
    input.on_keyboard_event(Key::RShift, ElementState::Released);
    input.on_keyboard_event(Key::Escape, ElementState::Pressed);
    assert_eq!(input, InputState { should_quit: true, ..fresh() });
    input.on_keyboard_event(Key::Escape, ElementState::Released);
    assert_eq!(input, fresh());
}

#[test]
fn arrow_keys_nudge_the_accumulators() {
    let mut input = fresh();
    input.on_keyboard_event(Key::Up, ElementState::Pressed);
    assert_eq!(input.mouse_pos, PointerDelta { x: 0, y: 100 });
    input.on_keyboard_event(Key::Down, ElementState::Pressed);
    assert_eq!(input.mouse_pos, PointerDelta { x: 0, y: 0 });
    input.on_keyboard_event(Key::Down, ElementState::Pressed);
    assert_eq!(input.mouse_pos, PointerDelta { x: 0, y: -100 });
    input.on_keyboard_event(Key::Left, ElementState::Pressed);
    assert_eq!(input.mouse_pos, PointerDelta { x: 100, y: -100 });
    input.on_keyboard_event(Key::Right, ElementState::Pressed);
    input.on_keyboard_event(Key::Right, ElementState::Pressed);
    assert_eq!(input.mouse_pos, PointerDelta { x: -100, y: -100 });
}

#[test]
fn arrow_keys_nudge_on_release_too() {
    let mut input = fresh();
    input.on_keyboard_event(Key::Left, ElementState::Pressed);
    input.on_keyboard_event(Key::Left, ElementState::Released);
    assert_eq!(input.mouse_pos, PointerDelta { x: 200, y: 0 });
}

#[test]
fn nudges_stop_at_the_bounds_of_the_accumulator() {
    let mut input = fresh();
    input.mouse_pos = PointerDelta { x: i32::MAX - 50, y: i32::MIN + 50 };
    input.on_keyboard_event(Key::Left, ElementState::Pressed);
    input.on_keyboard_event(Key::Down, ElementState::Pressed);
    assert_eq!(input.mouse_pos, PointerDelta { x: i32::MAX, y: i32::MIN });
}

#[test]
fn unmapped_keys_are_ignored() {
    let mut input = fresh();
    input.on_keyboard_event(Key::Other, ElementState::Pressed);
    assert_eq!(input, fresh());
    input.handle_input([1280, 720], &key(Key::Other, ElementState::Released));
    assert_eq!(input, fresh());
}

#[test]
fn wheel_adds_its_vertical_amount_to_the_move_speed() {
    let mut input = fresh();
    input.on_mouse_wheel_event(&ScrollDelta::Lines { x: 5000, y: 1000 });
    assert_eq!(input, InputState { move_speed: 2000, ..fresh() });
    input.on_mouse_wheel_event(&ScrollDelta::Pixels { x: -7, y: -2500 });
    assert_eq!(input, InputState { move_speed: -500, ..fresh() });
}

#[test]
fn move_speed_has_no_floor_but_the_range() {
    let mut input = fresh();
    input.on_mouse_wheel_event(&ScrollDelta::Lines { x: 0, y: i32::MIN });
    assert_eq!(input.move_speed, i32::MIN + 1000);
    input.on_mouse_wheel_event(&ScrollDelta::Lines { x: 0, y: -1001 });
    assert_eq!(input.move_speed, i32::MIN);
    input.move_speed = i32::MAX - 1;
    input.on_mouse_wheel_event(&ScrollDelta::Pixels { x: 0, y: 2 });
    assert_eq!(input.move_speed, i32::MAX);
}

#[test]
fn cursor_and_buttons_change_nothing() {
    let mut input = fresh();
    input.on_cursor_moved_event(512_000, 384_000);
    assert_eq!(input, fresh());
    input.on_mouse_click_event(ElementState::Pressed, MouseButton::Right);
    assert_eq!(input, fresh());
    input.handle_input([1280, 720], &HostEvent::CursorMoved { x: 100, y: 100 });
    assert_eq!(input, fresh());
    input.handle_input(
        [1280, 720],
        &HostEvent::MouseInput { state: ElementState::Pressed, button: MouseButton::Left },
    );
    assert_eq!(input, fresh());
}

#[test]
fn every_event_records_the_window_size() {
    let mut input = fresh();
    input.handle_input([800, 600], &HostEvent::Other);
    assert_eq!(input, InputState { window_size: [800, 600], ..fresh() });
    input.handle_input([1024, 768], &key(Key::W, ElementState::Pressed));
    assert_eq!(input, InputState { window_size: [1024, 768], forward: true, ..fresh() });
    input.handle_input([640, 480], &HostEvent::CloseRequested);
    assert_eq!(input.window_size, [640, 480]);
    input.handle_input([0, 0], &HostEvent::Resized);
    assert_eq!(input, InputState { window_size: [0, 0], forward: true, ..fresh() });
    input.handle_input(
        [1, 2],
        &HostEvent::MouseWheel { delta: ScrollDelta::Lines { x: 0, y: 250 } },
    );
    assert_eq!(
        input,
        InputState { window_size: [1, 2], forward: true, move_speed: 1250, ..fresh() }
    );
}

#[test]
fn reset_withdraws_only_the_full_screen_request() {
    let mut input = InputState {
        window_size: [800, 600],
        forward: true,
        backward: true,
        right: true,
        left: true,
        up: true,
        down: true,
        toggle_full_screen: true,
        should_quit: true,
        move_speed: -3,
        mouse_pos: PointerDelta { x: 100, y: -200 },
    };
    let before = input;
    input.reset();
    assert_eq!(input, InputState { toggle_full_screen: false, ..before });
    input.reset();
    assert_eq!(input, InputState { toggle_full_screen: false, ..before });
}

#[test]
fn full_screen_request_lasts_one_frame() {
    let mut input = fresh();
    input.handle_input([1280, 720], &key(Key::RShift, ElementState::Pressed));
    assert!(input.toggle_full_screen);
    input.reset();
    assert!(!input.toggle_full_screen);
    input.handle_input([1280, 720], &key(Key::W, ElementState::Pressed));
    assert!(!input.toggle_full_screen);
    input.reset();
    assert!(!input.toggle_full_screen);
    input.handle_input([1280, 720], &key(Key::RShift, ElementState::Released));
    assert!(!input.toggle_full_screen);
    input.reset();
    input.handle_input([1280, 720], &key(Key::RShift, ElementState::Pressed));
    assert!(input.toggle_full_screen);
}

#[test]
fn full_screen_key_released_in_the_same_frame_withdraws_the_request() {
    let mut input = fresh();
    input.handle_input([1280, 720], &key(Key::RShift, ElementState::Pressed));
    input.handle_input([1280, 720], &key(Key::RShift, ElementState::Released));
    assert!(!input.toggle_full_screen);
}

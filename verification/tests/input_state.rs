use global_input::events::{InputState, MouseButtonState, MouseClick, MouseDrag, Scroll, UiEvent};
use global_input::input::{Button, Input, Key, Modifiers, Motion, MouseButton};
use global_input::position::Point;
use global_input::widget::Index;

fn press(button: MouseButton) -> UiEvent {
    UiEvent::Raw(Input::Press(Button::Mouse(button)))
}

fn release(button: MouseButton) -> UiEvent {
    UiEvent::Raw(Input::Release(Button::Mouse(button)))
}

fn move_to(x: i64, y: i64) -> UiEvent {
    UiEvent::Raw(Input::Move(Motion::MouseRelative(x, y)))
}

#[test]
fn new_button_state_has_no_button_held() {
    let buttons = MouseButtonState::new();
    assert_eq!(buttons.get(MouseButton::Left), None);
    assert_eq!(buttons.get(MouseButton::Button8), None);
    assert_eq!(buttons.pressed_button(), None);
}

#[test]
fn pressed_button_is_found_with_its_location() {
    let mut buttons = MouseButtonState::new();
    buttons.press(MouseButton::Middle, Point::new(4, 5));
    assert_eq!(buttons.get(MouseButton::Middle), Some(Point::new(4, 5)));
    assert_eq!(buttons.get(MouseButton::Left), None);
    assert_eq!(buttons.pressed_button(), Some((MouseButton::Middle, Point::new(4, 5))));
}

#[test]
fn released_button_is_removed() {
    let mut buttons = MouseButtonState::new();
    buttons.press(MouseButton::Left, Point::new(1, 1));
    buttons.release(MouseButton::Left);
    assert_eq!(buttons.get(MouseButton::Left), None);
    assert_eq!(buttons.pressed_button(), None);
    assert_eq!(buttons, MouseButtonState::new());
}

#[test]
fn releasing_a_button_that_is_not_held_changes_nothing() {
    let mut buttons = MouseButtonState::new();
    buttons.press(MouseButton::Right, Point::new(2, 3));
    let before = buttons;
    buttons.release(MouseButton::Left);
    assert_eq!(buttons, before);
}

#[test]
fn pressing_a_held_button_records_it_anew() {
    let mut buttons = MouseButtonState::new();
    buttons.press(MouseButton::Left, Point::new(1, 1));
    buttons.press(MouseButton::Left, Point::new(9, 9));
    assert_eq!(buttons.get(MouseButton::Left), Some(Point::new(9, 9)));
}

#[test]
fn first_pressed_button_follows_the_order_of_buttons() {
    let mut buttons = MouseButtonState::new();
    buttons.press(MouseButton::X2, Point::new(5, 5));
    buttons.press(MouseButton::Right, Point::new(2, 2));
    buttons.press(MouseButton::Middle, Point::new(3, 3));
    assert_eq!(buttons.pressed_button(), Some((MouseButton::Right, Point::new(2, 2))));
    buttons.press(MouseButton::Unknown, Point::new(0, 7));
    assert_eq!(buttons.pressed_button(), Some((MouseButton::Unknown, Point::new(0, 7))));
    buttons.release(MouseButton::Unknown);
    buttons.release(MouseButton::Right);
    assert_eq!(buttons.pressed_button(), Some((MouseButton::Middle, Point::new(3, 3))));
}

#[test]
fn last_button_alone_is_the_first_pressed() {
    let mut buttons = MouseButtonState::new();
    buttons.press(MouseButton::Button8, Point::new(8, 8));
    assert_eq!(buttons.pressed_button(), Some((MouseButton::Button8, Point::new(8, 8))));
}

#[test]
fn new_state_is_all_default() {
    let state = InputState::new();
    assert_eq!(state.mouse_position, Point::new(0, 0));
    assert_eq!(state.mouse_buttons, MouseButtonState::new());
    assert_eq!(state.modifiers, Modifiers::none());
    assert_eq!(state.widget_capturing_mouse, None);
    assert_eq!(state.widget_capturing_keyboard, None);
}

#[test]
fn motion_sets_the_pointer_position() {
    let mut state = InputState::new();
    state.update(&move_to(30, -40));
    assert_eq!(state.mouse_position, Point::new(30, -40));
    let mut expected = InputState::new();
    expected.mouse_position = Point::new(30, -40);
    assert_eq!(state, expected);
}

#[test]
fn press_records_the_pointer_position() {
    let mut state = InputState::new();
    state.update(&move_to(7, 8));
    state.update(&press(MouseButton::Left));
    state.update(&move_to(100, 100));
    assert_eq!(state.mouse_buttons.get(MouseButton::Left), Some(Point::new(7, 8)));
    assert_eq!(state.mouse_position, Point::new(100, 100));
}

#[test]
fn release_removes_the_button() {
    let mut state = InputState::new();
    state.update(&press(MouseButton::Left));
    state.update(&press(MouseButton::Right));
    state.update(&release(MouseButton::Left));
    assert_eq!(state.mouse_buttons.get(MouseButton::Left), None);
    assert_eq!(state.mouse_buttons.get(MouseButton::Right), Some(Point::new(0, 0)));
}

#[test]
fn modifier_keys_are_merged_into_the_modifiers() {
    let mut state = InputState::new();
    state.update(&UiEvent::Raw(Input::Press(Button::Keyboard(Key::LShift))));
    state.update(&UiEvent::Raw(Input::Press(Button::Keyboard(Key::RCtrl))));
    assert_eq!(state.modifiers, Modifiers { ctrl: true, shift: true, alt: false, gui: false });
    state.update(&UiEvent::Raw(Input::Release(Button::Keyboard(Key::RShift))));
    assert_eq!(state.modifiers, Modifiers { ctrl: true, shift: false, alt: false, gui: false });
    state.update(&UiEvent::Raw(Input::Press(Button::Keyboard(Key::Other(97)))));
    state.update(&UiEvent::Raw(Input::Release(Button::Keyboard(Key::Other(97)))));
    assert_eq!(state.modifiers, Modifiers { ctrl: true, shift: false, alt: false, gui: false });
}

#[test]
fn capture_events_set_and_clear_the_capturing_widget() {
    let mut state = InputState::new();
    state.update(&UiEvent::WidgetCapturesMouse(Index::Public(3)));
    state.update(&UiEvent::WidgetCapturesKeyboard(Index::Internal(9)));
    assert_eq!(state.widget_capturing_mouse, Some(Index::Public(3)));
    assert_eq!(state.widget_capturing_keyboard, Some(Index::Internal(9)));
    state.update(&UiEvent::WidgetUncapturesMouse(Index::Public(3)));
    assert_eq!(state.widget_capturing_mouse, None);
    assert_eq!(state.widget_capturing_keyboard, Some(Index::Internal(9)));
    state.update(&UiEvent::WidgetUncapturesKeyboard(Index::Internal(9)));
    assert_eq!(state.widget_capturing_keyboard, None);
}

#[test]
fn other_events_change_nothing() {
    let mut state = InputState::new();
    state.update(&move_to(5, 6));
    state.update(&press(MouseButton::Left));
    let before = state;
    state.update(&UiEvent::Raw(Input::Move(Motion::MouseCursor(50, 60))));
    state.update(&UiEvent::Raw(Input::Move(Motion::MouseScroll(1, -1))));
    state.update(&UiEvent::Raw(Input::Text("a".to_string())));
    state.update(&UiEvent::Raw(Input::Resize(800, 600)));
    state.update(&UiEvent::Raw(Input::Focus(false)));
    state.update(&UiEvent::Raw(Input::Cursor(true)));
    assert_eq!(state, before);
}

#[test]
fn derived_events_change_nothing() {
    let mut state = InputState::new();
    state.update(&move_to(5, 6));
    state.update(&press(MouseButton::Left));
    let before = state;
    state.update(&UiEvent::MouseClick(MouseClick {
        button: MouseButton::Left,
        location: Point::new(1, 2),
        modifiers: Modifiers::none(),
    }));
    state.update(&UiEvent::MouseDrag(MouseDrag {
        button: MouseButton::Left,
        start: Point::new(1, 2),
        end: Point::new(30, 40),
        modifiers: Modifiers::none(),
        in_progress: false,
    }));
    state.update(&UiEvent::Scroll(Scroll { x: 3, y: 4, modifiers: Modifiers::none() }));
    assert_eq!(state, before);
}

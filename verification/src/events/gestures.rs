//! What the aggregator derives from the gestures of the mouse: theorems about
//! [`GlobalInputView::push_event`], which is what [`GlobalInput::push_event`]
//! does.
//!
//! [`GlobalInput::push_event`]: crate::events::GlobalInput::push_event

use crate::events::global_input::GlobalInputView;
use crate::events::input_state::{is_first_pressed, lemma_first_pressed_is_unique};
use crate::events::ui_event::{MouseClick, MouseDrag, Scroll, UiEvent};
use crate::input::MouseButton;
use crate::position::{
    lemma_not_farther_than_itself, lemma_zero_limit_separates_distinct_points, Point, Scalar,
};
use vstd::prelude::*;

verus! {

/// A button stays recorded at the place where it went down for as long as no
/// event presses or releases it, whatever else happens.
pub proof fn lemma_held_button_stays_recorded(
    input: GlobalInputView,
    events: Seq<UiEvent>,
    button: MouseButton,
    down_at: Point,
)
    requires
        input.current_state.mouse_buttons.contains_pair(button, down_at),
        forall|i: int| 0 <= i < events.len() ==> !(#[trigger] events[i]).touches(button),
    ensures
        input.push_events(events).current_state.mouse_buttons.contains_pair(button, down_at),
    decreases events.len(),
{
    if events.len() > 0 {
        lemma_held_button_stays_recorded(input, events.drop_last(), button, down_at);
        assert(!events[events.len() - 1].touches(button));
    }
}

/// A press and a release with the pointer within the drag threshold make a
/// click.
///
/// `button` goes down, any events follow that neither press nor release it,
/// and it comes up with the pointer no farther than the drag threshold from
/// where it went down. Then the release adds two entries to the log: itself,
/// and one click of `button` at the place where it went down, with the
/// modifiers held at the release. It adds no drag.
pub proof fn lemma_release_near_press_is_click(
    input: GlobalInputView,
    button: MouseButton,
    between: Seq<UiEvent>,
)
    requires
        forall|i: int| 0 <= i < between.len() ==> !(#[trigger] between[i]).touches(button),
        ({
            let held = input.push_event(UiEvent::press(button)).push_events(between);
            !input.is_drag(input.current_state.mouse_position, held.current_state.mouse_position)
        }),
    ensures
        ({
            let down_at = input.current_state.mouse_position;
            let held = input.push_event(UiEvent::press(button)).push_events(between);
            held.push_event(UiEvent::release(button)).events == held.events + seq![
                UiEvent::release(button),
                UiEvent::MouseClick(
                    MouseClick {
                        button,
                        location: down_at,
                        modifiers: held.current_state.modifiers,
                    },
                ),
            ]
        }),
{
    let down_at = input.current_state.mouse_position;
    let pressed = input.push_event(UiEvent::press(button));
    lemma_held_button_stays_recorded(pressed, between, button, down_at);
    pressed.lemma_start_state_is_frozen(between);
}

/// A press and a release with the pointer beyond the drag threshold make a
/// drag.
///
/// `button` goes down, any events follow that neither press nor release it,
/// and it comes up with the pointer farther than the drag threshold from where
/// it went down. Then the release adds two entries to the log: itself, and one
/// finished drag of `button` from the place where it went down to the place
/// where it came up, with the modifiers held at the release. It adds no click.
pub proof fn lemma_release_far_from_press_is_drag(
    input: GlobalInputView,
    button: MouseButton,
    between: Seq<UiEvent>,
)
    requires
        forall|i: int| 0 <= i < between.len() ==> !(#[trigger] between[i]).touches(button),
        ({
            let held = input.push_event(UiEvent::press(button)).push_events(between);
            input.is_drag(input.current_state.mouse_position, held.current_state.mouse_position)
        }),
    ensures
        ({
            let down_at = input.current_state.mouse_position;
            let held = input.push_event(UiEvent::press(button)).push_events(between);
            held.push_event(UiEvent::release(button)).events == held.events + seq![
                UiEvent::release(button),
                UiEvent::MouseDrag(
                    MouseDrag {
                        button,
                        start: down_at,
                        end: held.current_state.mouse_position,
                        modifiers: held.current_state.modifiers,
                        in_progress: false,
                    },
                ),
            ]
        }),
{
    let down_at = input.current_state.mouse_position;
    let pressed = input.push_event(UiEvent::press(button));
    lemma_held_button_stays_recorded(pressed, between, button, down_at);
    pressed.lemma_start_state_is_frozen(between);
}

/// A press and a release in place make a click, whatever the drag threshold.
///
/// `button` goes down, any events follow that neither press nor release it,
/// and it comes up with the pointer where it was when the button went down.
pub proof fn lemma_release_in_place_is_click(
    input: GlobalInputView,
    button: MouseButton,
    between: Seq<UiEvent>,
)
    requires
        forall|i: int| 0 <= i < between.len() ==> !(#[trigger] between[i]).touches(button),
        input.push_event(UiEvent::press(button)).push_events(between).current_state.mouse_position
            == input.current_state.mouse_position,
    ensures
        ({
            let down_at = input.current_state.mouse_position;
            let held = input.push_event(UiEvent::press(button)).push_events(between);
            held.push_event(UiEvent::release(button)).events == held.events + seq![
                UiEvent::release(button),
                UiEvent::MouseClick(
                    MouseClick {
                        button,
                        location: down_at,
                        modifiers: held.current_state.modifiers,
                    },
                ),
            ]
        }),
{
    lemma_not_farther_than_itself(input.current_state.mouse_position, input.drag_threshold);
    lemma_release_near_press_is_click(input, button, between);
}

/// With a drag threshold of zero, a press and a release make a drag as soon
/// as the pointer has moved at all.
///
/// `button` goes down, any events follow that neither press nor release it,
/// and it comes up with the pointer at another place than where it went down.
pub proof fn lemma_zero_threshold_makes_every_move_a_drag(
    input: GlobalInputView,
    button: MouseButton,
    between: Seq<UiEvent>,
)
    requires
        input.drag_threshold == 0,
        forall|i: int| 0 <= i < between.len() ==> !(#[trigger] between[i]).touches(button),
        input.push_event(UiEvent::press(button)).push_events(between).current_state.mouse_position
            != input.current_state.mouse_position,
    ensures
        ({
            let down_at = input.current_state.mouse_position;
            let held = input.push_event(UiEvent::press(button)).push_events(between);
            held.push_event(UiEvent::release(button)).events == held.events + seq![
                UiEvent::release(button),
                UiEvent::MouseDrag(
                    MouseDrag {
                        button,
                        start: down_at,
                        end: held.current_state.mouse_position,
                        modifiers: held.current_state.modifiers,
                        in_progress: false,
                    },
                ),
            ]
        }),
{
    let pressed = input.push_event(UiEvent::press(button));
    let held = pressed.push_events(between);
    pressed.lemma_start_state_is_frozen(between);
    lemma_zero_limit_separates_distinct_points(
        input.current_state.mouse_position,
        held.current_state.mouse_position,
    );
    lemma_release_far_from_press_is_drag(input, button, between);
}

/// The release of a button that is not recorded as held adds itself to the
/// log and derives nothing.
pub proof fn lemma_release_without_press_derives_nothing(
    input: GlobalInputView,
    button: MouseButton,
)
    requires
        !input.current_state.mouse_buttons.dom().contains(button),
    ensures
        input.push_event(UiEvent::release(button)).events == input.events.push(
            UiEvent::release(button),
        ),
        input.push_event(UiEvent::release(button)).current_state == input.current_state,
{
    let after = input.push_event(UiEvent::release(button));
    assert(after.current_state.mouse_buttons =~= input.current_state.mouse_buttons);
}

/// The first held button stays the first held one, recorded at the place
/// where it went down, for as long as no event presses or releases it and no
/// button before it in the order of buttons goes down.
pub proof fn lemma_first_held_button_stays_first(
    input: GlobalInputView,
    events: Seq<UiEvent>,
    button: MouseButton,
    down_at: Point,
)
    requires
        is_first_pressed(input.current_state.mouse_buttons, button),
        input.current_state.mouse_buttons[button] == down_at,
        forall|i: int|
            0 <= i < events.len() ==> !(#[trigger] events[i]).touches(button)
                && !events[i].presses_before(button),
    ensures
        is_first_pressed(input.push_events(events).current_state.mouse_buttons, button),
        input.push_events(events).current_state.mouse_buttons[button] == down_at,
    decreases events.len(),
{
    if events.len() > 0 {
        lemma_first_held_button_stays_first(input, events.drop_last(), button, down_at);
        let last = events[events.len() - 1];
        assert(!last.touches(button) && !last.presses_before(button));
    }
}

/// Every motion of the pointer beyond the drag threshold is a drag in
/// progress that starts where the button went down.
///
/// `button` goes down while no button before it in the order of buttons is
/// held. Any events follow that neither press nor release it, nor press a
/// button before it; among them may be earlier motions of the pointer. Then
/// the pointer moves to a place farther than the drag threshold from where the
/// button went down. This motion adds two entries to the log: itself, and one
/// drag in progress of `button` from the place where it went down to the place
/// the pointer moved to, with the modifiers held at the time.
pub proof fn lemma_move_far_from_press_is_drag_in_progress(
    input: GlobalInputView,
    button: MouseButton,
    between: Seq<UiEvent>,
    to: Point,
)
    requires
        forall|other: MouseButton| #[trigger]
            input.current_state.mouse_buttons.dom().contains(other) ==> button.spec_index()
                <= other.spec_index(),
        forall|i: int|
            0 <= i < between.len() ==> !(#[trigger] between[i]).touches(button)
                && !between[i].presses_before(button),
        input.is_drag(input.current_state.mouse_position, to),
    ensures
        ({
            let down_at = input.current_state.mouse_position;
            let held = input.push_event(UiEvent::press(button)).push_events(between);
            held.push_event(UiEvent::pointer_to(to)).events == held.events + seq![
                UiEvent::pointer_to(to),
                UiEvent::MouseDrag(
                    MouseDrag {
                        button,
                        start: down_at,
                        end: to,
                        modifiers: held.current_state.modifiers,
                        in_progress: true,
                    },
                ),
            ]
        }),
{
    let down_at = input.current_state.mouse_position;
    let pressed = input.push_event(UiEvent::press(button));
    let held = pressed.push_events(between);
    assert(is_first_pressed(pressed.current_state.mouse_buttons, button));
    lemma_first_held_button_stays_first(pressed, between, button, down_at);
    pressed.lemma_start_state_is_frozen(between);
    lemma_first_pressed_is_unique(held.current_state.mouse_buttons, button);
}

/// A drag in progress is anchored where the button went down, not where the
/// pointer last was.
///
/// `button` goes down while no button before it in the order of buttons is
/// held, and the pointer moves twice, each time to a place farther than the
/// drag threshold from where the button went down. Then each motion adds two
/// entries to the log: itself, and one drag in progress of `button` that
/// starts where the button went down and ends where the pointer moved to.
pub proof fn lemma_moves_drag_from_press(
    input: GlobalInputView,
    button: MouseButton,
    first: Point,
    second: Point,
)
    requires
        forall|other: MouseButton| #[trigger]
            input.current_state.mouse_buttons.dom().contains(other) ==> button.spec_index()
                <= other.spec_index(),
        input.is_drag(input.current_state.mouse_position, first),
        input.is_drag(input.current_state.mouse_position, second),
    ensures
        ({
            let down_at = input.current_state.mouse_position;
            let modifiers = input.current_state.modifiers;
            let pressed = input.push_event(UiEvent::press(button));
            let moved = pressed.push_event(UiEvent::pointer_to(first));
            let moved_again = moved.push_event(UiEvent::pointer_to(second));
            &&& pressed.events == input.events.push(UiEvent::press(button))
            &&& moved.events == pressed.events + seq![
                UiEvent::pointer_to(first),
                UiEvent::MouseDrag(
                    MouseDrag { button, start: down_at, end: first, modifiers, in_progress: true },
                ),
            ]
            &&& moved_again.events == moved.events + seq![
                UiEvent::pointer_to(second),
                UiEvent::MouseDrag(
                    MouseDrag { button, start: down_at, end: second, modifiers, in_progress: true },
                ),
            ]
        }),
{
    let pressed = input.push_event(UiEvent::press(button));
    let moved = pressed.push_event(UiEvent::pointer_to(first));
    let no_events = Seq::<UiEvent>::empty();
    let one_move = seq![UiEvent::pointer_to(first)];
    assert(pressed.push_events(no_events) == pressed);
    assert(one_move.drop_last() =~= no_events);
    assert(pressed.push_events(one_move) == moved);
    lemma_move_far_from_press_is_drag_in_progress(input, button, no_events, first);
    lemma_move_far_from_press_is_drag_in_progress(input, button, one_move, second);
}

/// A motion of the pointer that stays within the drag threshold of the place
/// where the first held button went down, or that happens while no button is
/// held, adds itself to the log and derives nothing.
pub proof fn lemma_move_within_threshold_derives_nothing(input: GlobalInputView, to: Point)
    requires
        forall|button: MouseButton| #[trigger]
            is_first_pressed(input.current_state.mouse_buttons, button) ==> !input.is_drag(
                input.current_state.mouse_buttons[button],
                to,
            ),
    ensures
        input.push_event(UiEvent::pointer_to(to)).events == input.events.push(
            UiEvent::pointer_to(to),
        ),
{
}

/// Every scroll derives one scroll event with the same amounts and the
/// modifiers held at the time, whatever the drag threshold and the state, and
/// leaves the state as it was.
pub proof fn lemma_scroll_derives_scroll(input: GlobalInputView, x: Scalar, y: Scalar)
    ensures
        input.push_event(UiEvent::scroll_by(x, y)).events == input.events + seq![
            UiEvent::scroll_by(x, y),
            UiEvent::Scroll(Scroll { x, y, modifiers: input.current_state.modifiers }),
        ],
        input.push_event(UiEvent::scroll_by(x, y)).current_state == input.current_state,
{
}

} // verus!

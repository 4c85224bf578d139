//! The events that the interface hands to its widgets.

use crate::input::{Button, Input, Modifiers, Motion, MouseButton};
use crate::position::{Point, Scalar};
use crate::widget::Index;
use vstd::prelude::*;

verus! {

/// A button was pressed and released without the pointer leaving the
/// neighbourhood of the place where it went down.
#[derive(Clone, Copy, Debug, PartialEq, Eq, Structural)]
pub struct MouseClick {
    /// The button that was clicked.
    pub button: MouseButton,
    /// Where the button went down.
    pub location: Point,
    /// The modifier keys held when the button came up.
    pub modifiers: Modifiers,
}

/// The pointer moved away from the place where a button went down, with the
/// button held.
#[derive(Clone, Copy, Debug, PartialEq, Eq, Structural)]
pub struct MouseDrag {
    /// The button that is, or was, held.
    pub button: MouseButton,
    /// Where the button went down.
    pub start: Point,
    /// Where the pointer is now, or where the button came up.
    pub end: Point,
    /// The modifier keys held at the time of the event.
    pub modifiers: Modifiers,
    /// Whether the button is still held.
    pub in_progress: bool,
}

/// The scroll wheel moved.
#[derive(Clone, Copy, Debug, PartialEq, Eq, Structural)]
pub struct Scroll {
    /// The amount scrolled along the horizontal axis.
    pub x: Scalar,
    /// The amount scrolled along the vertical axis.
    pub y: Scalar,
    /// The modifier keys held at the time of the event.
    pub modifiers: Modifiers,
}

/// An event of the user interface: a raw input event, an event derived from
/// raw input, or a change of the widget that captures an input device.
#[derive(Debug, PartialEq, Eq)]
pub enum UiEvent {
    /// A raw input event, as the windowing layer reported it.
    Raw(Input),
    MouseClick(MouseClick),
    MouseDrag(MouseDrag),
    Scroll(Scroll),
    /// The widget started to capture the keyboard.
    WidgetCapturesKeyboard(Index),
    /// The widget stopped capturing the keyboard.
    WidgetUncapturesKeyboard(Index),
    /// The widget started to capture the mouse.
    WidgetCapturesMouse(Index),
    /// The widget stopped capturing the mouse.
    WidgetUncapturesMouse(Index),
}

impl Clone for UiEvent {
    fn clone(&self) -> (copy: UiEvent)
        ensures
            copy == *self,
    {
        match self {
            UiEvent::Raw(input) => UiEvent::Raw(input.clone()),
            UiEvent::MouseClick(click) => UiEvent::MouseClick(*click),
            UiEvent::MouseDrag(drag) => UiEvent::MouseDrag(*drag),
            UiEvent::Scroll(scroll) => UiEvent::Scroll(*scroll),
            UiEvent::WidgetCapturesKeyboard(index) => UiEvent::WidgetCapturesKeyboard(*index),
            UiEvent::WidgetUncapturesKeyboard(index) => UiEvent::WidgetUncapturesKeyboard(*index),
            UiEvent::WidgetCapturesMouse(index) => UiEvent::WidgetCapturesMouse(*index),
            UiEvent::WidgetUncapturesMouse(index) => UiEvent::WidgetUncapturesMouse(*index),
        }
    }
}

impl UiEvent {
    /// Whether the event is raw input. Only raw input is ever interpreted;
    /// the events derived from it are not.
    pub open spec fn is_raw(self) -> bool {
        self is Raw
    }

    /// How many events can be derived from this one in a row: one from raw
    /// input, none from any other event.
    pub open spec fn derivation_depth(self) -> nat {
        if self.is_raw() {
            1
        } else {
            0
        }
    }

    /// The raw event of `button` going down.
    pub open spec fn press(button: MouseButton) -> UiEvent {
        UiEvent::Raw(Input::Press(Button::Mouse(button)))
    }

    /// The raw event of `button` coming up.
    pub open spec fn release(button: MouseButton) -> UiEvent {
        UiEvent::Raw(Input::Release(Button::Mouse(button)))
    }

    /// The raw event of the pointer moving to `to`.
    pub open spec fn pointer_to(to: Point) -> UiEvent {
        UiEvent::Raw(Input::Move(Motion::MouseRelative(to.x, to.y)))
    }

    /// The raw event of a scroll by `x` and `y`.
    pub open spec fn scroll_by(x: Scalar, y: Scalar) -> UiEvent {
        UiEvent::Raw(Input::Move(Motion::MouseScroll(x, y)))
    }

    /// Whether the event is `button` going down or coming up.
    pub open spec fn touches(self, button: MouseButton) -> bool {
        self == UiEvent::press(button) || self == UiEvent::release(button)
    }

    /// Whether the event is a mouse button going down that comes before
    /// `button` in the order of buttons.
    pub open spec fn presses_before(self, button: MouseButton) -> bool {
        self matches UiEvent::Raw(Input::Press(Button::Mouse(other))) && other.spec_index()
            < button.spec_index()
    }
}

} // verus!

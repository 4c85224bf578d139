//! The live facts about input: where the pointer is, which buttons are held
//! and where each went down, which modifier keys are held, and which widgets
//! capture the mouse and the keyboard.

use crate::events::ui_event::UiEvent;
use crate::input::{Button, Input, Modifiers, Motion, MouseButton, NUM_MOUSE_BUTTONS};
use crate::position::Point;
use crate::widget::Index;
use vstd::prelude::*;

verus! {

/// For each mouse button, whether it is held, and if so where it went down.
///
/// Its view is the map from the held buttons to their down-locations: a button
/// is in the map exactly while it is held.
#[derive(Clone, Copy, Debug, PartialEq, Eq)]
pub struct MouseButtonState {
    button_states: [Option<Point>; NUM_MOUSE_BUTTONS],
}

impl View for MouseButtonState {
    type V = Map<MouseButton, Point>;

    closed spec fn view(&self) -> Map<MouseButton, Point> {
        Map::new(
            |button: MouseButton| self.button_states@[button.spec_index() as int] is Some,
            |button: MouseButton| self.button_states@[button.spec_index() as int]->0,
        )
    }
}

/// Whether `button` is held and no held button comes before it in the order
/// of buttons.
pub open spec fn is_first_pressed(buttons: Map<MouseButton, Point>, button: MouseButton) -> bool {
    &&& buttons.dom().contains(button)
    &&& forall|other: MouseButton| #[trigger]
        buttons.dom().contains(other) ==> button.spec_index() <= other.spec_index()
}

/// The held button that comes first in the order of buttons, with the place
/// where it went down; `None` when no button is held.
pub open spec fn first_pressed(buttons: Map<MouseButton, Point>) -> Option<(MouseButton, Point)> {
    if exists|button: MouseButton| is_first_pressed(buttons, button) {
        let button = choose|button: MouseButton| is_first_pressed(buttons, button);
        Some((button, buttons[button]))
    } else {
        None
    }
}

/// At most one button is the first held one; so whichever button meets
/// [`is_first_pressed`] is the one that [`first_pressed`] names.
pub proof fn lemma_first_pressed_is_unique(buttons: Map<MouseButton, Point>, button: MouseButton)
    requires
        is_first_pressed(buttons, button),
    ensures
        first_pressed(buttons) == Some((button, buttons[button])),
{
    let chosen = choose|button: MouseButton| is_first_pressed(buttons, button);
    assert(chosen.spec_index() == button.spec_index());
    chosen.lemma_index_round_trip();
    button.lemma_index_round_trip();
}

/// While no button is held, there is no first held button.
pub proof fn lemma_first_pressed_of_none(buttons: Map<MouseButton, Point>)
    requires
        forall|button: MouseButton| !buttons.dom().contains(button),
    ensures
        first_pressed(buttons) is None,
{
}

impl MouseButtonState {
    /// The view loses nothing: two states that hold the same buttons at the
    /// same places are the same state.
    pub proof fn lemma_view_is_injective(self, other: MouseButtonState)
        requires
            self@ == other@,
        ensures
            self == other,
    {
        assert forall|index: int| 0 <= index < NUM_MOUSE_BUTTONS implies self.button_states@[index]
            == other.button_states@[index] by {
            let button = MouseButton::spec_from_index(index as usize);
            let mine = self.button_states@[index];
            let theirs = other.button_states@[index];
            assert(button.spec_index() == index);
            assert(self@.dom().contains(button) == (mine is Some));
            assert(other@.dom().contains(button) == (theirs is Some));
            if mine is Some {
                assert(self@[button] == mine->0);
                assert(other@[button] == theirs->0);
            }
        }
        assert(self.button_states =~= other.button_states);
    }

    /// The state in which no button is held.
    pub fn new() -> (state: MouseButtonState)
        ensures
            state@ == Map::<MouseButton, Point>::empty(),
    {
        let state = MouseButtonState { button_states: [None;NUM_MOUSE_BUTTONS] };
        assert(state@ =~= Map::<MouseButton, Point>::empty());
        state
    }

    /// Records that `button` went down at `location`. A button that is held
    /// already is recorded anew.
    pub fn press(&mut self, button: MouseButton, location: Point)
        ensures
            final(self)@ == old(self)@.insert(button, location),
    {
        let index: usize = button.index();
        self.button_states[index] = Some(location);
        proof {
            assert forall|other: MouseButton| other != button implies other.spec_index()
                != button.spec_index() by {
                other.lemma_index_round_trip();
                button.lemma_index_round_trip();
            }
            assert(self@ =~= old(self)@.insert(button, location));
        }
    }

    /// Records that `button` came up. Nothing changes if it was not held.
    pub fn release(&mut self, button: MouseButton)
        ensures
            final(self)@ == old(self)@.remove(button),
    {
        let index: usize = button.index();
        self.button_states[index] = None;
        proof {
            assert forall|other: MouseButton| other != button implies other.spec_index()
                != button.spec_index() by {
                other.lemma_index_round_trip();
                button.lemma_index_round_trip();
            }
            assert(self@ =~= old(self)@.remove(button));
        }
    }

    /// Where `button` went down, if it is held.
    pub fn get(&self, button: MouseButton) -> (location: Option<Point>)
        ensures
            location == (if self@.dom().contains(button) {
                Some(self@[button])
            } else {
                None
            }),
    {
        self.button_states[button.index()]
    }

    /// The held button that comes first in the order of buttons, with the
    /// place where it went down.
    pub fn pressed_button(&self) -> (pressed: Option<(MouseButton, Point)>)
        ensures
            pressed == first_pressed(self@),
    {
        let mut index: usize = 0;
        while index < NUM_MOUSE_BUTTONS
            invariant
                index <= NUM_MOUSE_BUTTONS,
                forall|other: MouseButton| #[trigger]
                    self@.dom().contains(other) ==> index <= other.spec_index(),
            decreases NUM_MOUSE_BUTTONS - index,
        {
            if let Some(location) = self.button_states[index] {
                let button = MouseButton::from_index(index);
                proof {
                    lemma_first_pressed_is_unique(self@, button);
                }
                return Some((button, location));
            }
            proof {
                assert forall|other: MouseButton| #[trigger]
                    self@.dom().contains(other) implies index + 1 <= other.spec_index() by {
                    other.lemma_index_round_trip();
                }
            }
            index = index + 1;
        }
        proof {
            assert forall|other: MouseButton| !self@.dom().contains(other) by {
                other.lemma_index_round_trip();
            }
            lemma_first_pressed_of_none(self@);
        }
        None
    }
}

/// The input state as a mathematical value: that of [`InputState`], with the
/// held buttons as a map from each to its down-location.
#[verifier::ext_equal]
pub struct InputStateView {
    /// The held buttons, each with the place where it went down.
    pub mouse_buttons: Map<MouseButton, Point>,
    /// Where the pointer is.
    pub mouse_position: Point,
    /// The widget that captures the keyboard, if any.
    pub widget_capturing_keyboard: Option<Index>,
    /// The widget that captures the mouse, if any.
    pub widget_capturing_mouse: Option<Index>,
    /// The modifier keys that are held.
    pub modifiers: Modifiers,
}

impl InputStateView {
    /// The state before any input: the pointer at the origin, nothing held,
    /// nothing captured.
    pub open spec fn new() -> InputStateView {
        InputStateView {
            mouse_buttons: Map::empty(),
            mouse_position: Point { x: 0, y: 0 },
            widget_capturing_keyboard: None,
            widget_capturing_mouse: None,
            modifiers: Modifiers::spec_none(),
        }
    }

    /// The state after `event`.
    ///
    /// A mouse button that goes down is recorded with the pointer's position,
    /// one that comes up is forgotten; a pointer motion moves the pointer; a
    /// modifier key joins or leaves the held modifiers; a capture event sets
    /// or clears the capturing widget. Any other event changes nothing.
    pub open spec fn update(self, event: UiEvent) -> InputStateView {
        match event {
            UiEvent::Raw(Input::Press(Button::Mouse(button))) => InputStateView {
                mouse_buttons: self.mouse_buttons.insert(button, self.mouse_position),
                ..self
            },
            UiEvent::Raw(Input::Release(Button::Mouse(button))) => InputStateView {
                mouse_buttons: self.mouse_buttons.remove(button),
                ..self
            },
            UiEvent::Raw(Input::Move(Motion::MouseRelative(x, y))) => InputStateView {
                mouse_position: Point { x, y },
                ..self
            },
            UiEvent::Raw(Input::Press(Button::Keyboard(key))) => match key.spec_modifier() {
                Some(modifier) => InputStateView {
                    modifiers: self.modifiers.with(modifier),
                    ..self
                },
                None => self,
            },
            UiEvent::Raw(Input::Release(Button::Keyboard(key))) => match key.spec_modifier() {
                Some(modifier) => InputStateView {
                    modifiers: self.modifiers.without(modifier),
                    ..self
                },
                None => self,
            },
            UiEvent::WidgetCapturesKeyboard(index) => InputStateView {
                widget_capturing_keyboard: Some(index),
                ..self
            },
            UiEvent::WidgetUncapturesKeyboard(_) => InputStateView {
                widget_capturing_keyboard: None,
                ..self
            },
            UiEvent::WidgetCapturesMouse(index) => InputStateView {
                widget_capturing_mouse: Some(index),
                ..self
            },
            UiEvent::WidgetUncapturesMouse(_) => InputStateView {
                widget_capturing_mouse: None,
                ..self
            },
            _ => self,
        }
    }
}

/// The live facts about input.
#[derive(Clone, Copy, Debug, PartialEq, Eq)]
pub struct InputState {
    /// For each mouse button, whether it is held and where it went down.
    pub mouse_buttons: MouseButtonState,
    /// Where the pointer is.
    pub mouse_position: Point,
    /// The widget that captures the keyboard, if any.
    pub widget_capturing_keyboard: Option<Index>,
    /// The widget that captures the mouse, if any.
    pub widget_capturing_mouse: Option<Index>,
    /// The modifier keys that are held.
    pub modifiers: Modifiers,
}

impl View for InputState {
    type V = InputStateView;

    open spec fn view(&self) -> InputStateView {
        InputStateView {
            mouse_buttons: self.mouse_buttons@,
            mouse_position: self.mouse_position,
            widget_capturing_keyboard: self.widget_capturing_keyboard,
            widget_capturing_mouse: self.widget_capturing_mouse,
            modifiers: self.modifiers,
        }
    }
}

impl InputState {
    /// The view loses nothing: two states with the same view are the same
    /// state.
    pub proof fn lemma_view_is_injective(self, other: InputState)
        requires
            self@ == other@,
        ensures
            self == other,
    {
        self.mouse_buttons.lemma_view_is_injective(other.mouse_buttons);
    }

    /// The state before any input: the pointer at the origin, nothing held,
    /// nothing captured.
    pub fn new() -> (state: InputState)
        ensures
            state@ == InputStateView::new(),
    {
        InputState {
            mouse_buttons: MouseButtonState::new(),
            mouse_position: Point::origin(),
            widget_capturing_keyboard: None,
            widget_capturing_mouse: None,
            modifiers: Modifiers::none(),
        }
    }

    /// Brings the state up to date with `event`.
    pub fn update(&mut self, event: &UiEvent)
        ensures
            final(self)@ == old(self)@.update(*event),
    {
        match event {
            UiEvent::Raw(Input::Press(Button::Mouse(button))) => {
                self.mouse_buttons.press(*button, self.mouse_position);
            },
            UiEvent::Raw(Input::Release(Button::Mouse(button))) => {
                self.mouse_buttons.release(*button);
            },
            UiEvent::Raw(Input::Move(Motion::MouseRelative(x, y))) => {
                self.mouse_position = Point::new(*x, *y);
            },
            UiEvent::Raw(Input::Press(Button::Keyboard(key))) => {
                if let Some(modifier) = key.modifier() {
                    self.modifiers.insert(modifier);
                }
            },
            UiEvent::Raw(Input::Release(Button::Keyboard(key))) => {
                if let Some(modifier) = key.modifier() {
                    self.modifiers.remove(modifier);
                }
            },
            UiEvent::WidgetCapturesKeyboard(index) => {
                self.widget_capturing_keyboard = Some(*index);
            },
            UiEvent::WidgetUncapturesKeyboard(_) => {
                self.widget_capturing_keyboard = None;
            },
            UiEvent::WidgetCapturesMouse(index) => {
                self.widget_capturing_mouse = Some(*index);
            },
            UiEvent::WidgetUncapturesMouse(_) => {
                self.widget_capturing_mouse = None;
            },
            _ => {},
        }
    }
}

} // verus!

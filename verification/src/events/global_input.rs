//! The aggregator of global input.
//!
//! A [`GlobalInput`] takes one event at a time. It keeps the input state up to
//! date, derives clicks, drags and scrolls from raw input, and logs every event
//! it was given or derived, in order, until it is reset at the end of an update
//! cycle.

use crate::events::input_state::{first_pressed, InputState, InputStateView};
use crate::events::ui_event::{MouseClick, MouseDrag, Scroll, UiEvent};
use crate::input::{Button, Input, Motion, MouseButton};
use crate::position::{farther_than, is_farther_than, Point, Scalar};
use crate::widget::Index;
use vstd::prelude::*;

verus! {

/// A [`GlobalInput`] as a mathematical value.
#[verifier::ext_equal]
pub struct GlobalInputView {
    /// The input state as it was when the current update cycle began.
    pub start_state: InputStateView,
    /// The input state after every event of the current update cycle.
    pub current_state: InputStateView,
    /// Every event of the current update cycle, given or derived, in order.
    pub events: Seq<UiEvent>,
    /// The distance that the pointer must move from the place where a button
    /// went down, for the gesture to be a drag and not a click.
    pub drag_threshold: u64,
}

impl GlobalInputView {
    /// The aggregator before any input.
    pub open spec fn new(drag_threshold: u64) -> GlobalInputView {
        GlobalInputView {
            start_state: InputStateView::new(),
            current_state: InputStateView::new(),
            events: Seq::empty(),
            drag_threshold,
        }
    }

    /// Whether a gesture from `from` to `to` is a drag: the two lie farther
    /// apart than the drag threshold.
    pub open spec fn is_drag(self, from: Point, to: Point) -> bool {
        farther_than(from, to, self.drag_threshold)
    }

    /// The event derived from the release of a mouse button.
    ///
    /// If the button is recorded as held, the gesture that began where it went
    /// down ends where the pointer is: as a finished drag if that is farther
    /// away than the drag threshold, as a click otherwise. The release of a
    /// button that is not recorded as held derives nothing.
    pub open spec fn release_event(self, button: MouseButton) -> Option<UiEvent> {
        let state = self.current_state;
        if state.mouse_buttons.dom().contains(button) {
            let start = state.mouse_buttons[button];
            if self.is_drag(start, state.mouse_position) {
                Some(
                    UiEvent::MouseDrag(
                        MouseDrag {
                            button,
                            start,
                            end: state.mouse_position,
                            modifiers: state.modifiers,
                            in_progress: false,
                        },
                    ),
                )
            } else {
                Some(
                    UiEvent::MouseClick(
                        MouseClick { button, location: start, modifiers: state.modifiers },
                    ),
                )
            }
        } else {
            None
        }
    }

    /// The event derived from a motion of the pointer to `to`.
    ///
    /// If a button is held, and `to` is farther than the drag threshold from
    /// the place where the first held button went down, a drag in progress
    /// from that place to `to`. At most one drag is derived, whatever the
    /// number of held buttons.
    pub open spec fn move_event(self, to: Point) -> Option<UiEvent> {
        let state = self.current_state;
        match first_pressed(state.mouse_buttons) {
            Some((button, start)) => if self.is_drag(start, to) {
                Some(
                    UiEvent::MouseDrag(
                        MouseDrag {
                            button,
                            start,
                            end: to,
                            modifiers: state.modifiers,
                            in_progress: true,
                        },
                    ),
                )
            } else {
                None
            },
            None => None,
        }
    }

    /// The event derived from a scroll: the same scroll, with the modifier
    /// keys that are held.
    pub open spec fn scroll_event(self, x: Scalar, y: Scalar) -> Option<UiEvent> {
        Some(UiEvent::Scroll(Scroll { x, y, modifiers: self.current_state.modifiers }))
    }

    /// The event derived from `event` in the current state, if any. Only the
    /// release of a mouse button, a motion of the pointer and a scroll derive
    /// one.
    pub open spec fn interpret(self, event: UiEvent) -> Option<UiEvent> {
        match event {
            UiEvent::Raw(Input::Release(Button::Mouse(button))) => self.release_event(button),
            UiEvent::Raw(Input::Move(Motion::MouseRelative(x, y))) => self.move_event(
                Point { x, y },
            ),
            UiEvent::Raw(Input::Move(Motion::MouseScroll(x, y))) => self.scroll_event(x, y),
            _ => None,
        }
    }

    /// The entries that `event` adds to the log: the event itself, then the
    /// event derived from it, if any.
    pub open spec fn entries_for(self, event: UiEvent) -> Seq<UiEvent> {
        match self.interpret(event) {
            Some(derived) => seq![event, derived],
            None => seq![event],
        }
    }

    /// The aggregator after `event`.
    ///
    /// The event is interpreted in the state before it, then the state is
    /// brought up to date with it; the log gains the event and, right behind
    /// it, the event derived from it.
    pub open spec fn push_event(self, event: UiEvent) -> GlobalInputView {
        GlobalInputView {
            current_state: self.current_state.update(event),
            events: self.events + self.entries_for(event),
            ..self
        }
    }

    /// The aggregator after each of `events` in turn.
    pub open spec fn push_events(self, events: Seq<UiEvent>) -> GlobalInputView
        decreases events.len(),
    {
        if events.len() == 0 {
            self
        } else {
            self.push_events(events.drop_last()).push_event(events.last())
        }
    }

    /// The aggregator at the start of the next update cycle: the log is
    /// empty, and the current state is also the state at the start.
    pub open spec fn reset(self) -> GlobalInputView {
        GlobalInputView { start_state: self.current_state, events: Seq::empty(), ..self }
    }
}

impl GlobalInputView {
    /// A derived event is never raw input, and only raw input derives one. So
    /// an aggregator that is given a derived event logs it, and does nothing
    /// else: its state stays as it is, and nothing is derived in turn.
    pub proof fn lemma_derived_event_is_only_logged(self, event: UiEvent, other: GlobalInputView)
        requires
            self.interpret(event) is Some,
        ensures
            event.is_raw(),
            !self.interpret(event).unwrap().is_raw(),
            other.push_event(self.interpret(event).unwrap()) == (GlobalInputView {
                events: other.events.push(self.interpret(event).unwrap()),
                ..other
            }),
    {
        let derived = self.interpret(event).unwrap();
        let after = other.push_event(derived);
        assert(after.events =~= other.events.push(derived));
    }

    /// Taking in events changes neither the state at the start of the update
    /// cycle nor the drag threshold.
    pub proof fn lemma_start_state_is_frozen(self, events: Seq<UiEvent>)
        ensures
            self.push_events(events).start_state == self.start_state,
            self.push_events(events).drag_threshold == self.drag_threshold,
        decreases events.len(),
    {
        if events.len() > 0 {
            self.lemma_start_state_is_frozen(events.drop_last());
        }
    }

    /// Resetting twice in a row is resetting once. A reset empties the log,
    /// makes the current state the state at the start, and leaves the current
    /// state and the drag threshold as they are.
    pub proof fn lemma_reset_is_idempotent(self)
        ensures
            self.reset().reset() == self.reset(),
            self.reset().events == Seq::<UiEvent>::empty(),
            self.reset().start_state == self.current_state,
            self.reset().current_state == self.current_state,
            self.reset().drag_threshold == self.drag_threshold,
    {
    }

    /// The log never loses an entry while events are taken in: what was
    /// logged after the first `count` of `events` is the beginning of what is
    /// logged after all of them.
    pub proof fn lemma_log_extends(self, events: Seq<UiEvent>, count: int)
        requires
            0 <= count <= events.len(),
        ensures
            self.push_events(events.take(count)).events.is_prefix_of(
                self.push_events(events).events,
            ),
        decreases events.len(),
    {
        if count == events.len() {
            assert(events.take(count) =~= events);
        } else {
            let earlier = events.drop_last();
            self.lemma_log_extends(earlier, count);
            assert(earlier.take(count) =~= events.take(count));
        }
    }

    /// Each event that is taken in adds one entry to the log, or two: after
    /// `events`, the log has grown by at least their number, and by at most
    /// twice their number.
    pub proof fn lemma_log_length(self, events: Seq<UiEvent>)
        ensures
            self.events.len() + events.len() <= self.push_events(events).events.len(),
            self.push_events(events).events.len() <= self.events.len() + 2 * events.len(),
        decreases events.len(),
    {
        if events.len() > 0 {
            self.lemma_log_length(events.drop_last());
        }
    }

    /// The log keeps the order of cause and effect.
    ///
    /// Of `events`, taken in one after the other, the one at `index` stands in
    /// the log right behind everything that was logged before it was taken in,
    /// and the event derived from it, if there is one, stands right behind it.
    pub proof fn lemma_log_keeps_causal_order(self, events: Seq<UiEvent>, index: int)
        requires
            0 <= index < events.len(),
        ensures
            ({
                let before = self.push_events(events.take(index));
                let log = self.push_events(events).events;
                let at = before.events.len() as int;
                &&& self.events.len() + index <= at < log.len()
                &&& before.events.is_prefix_of(log)
                &&& log[at] == events[index]
                &&& before.interpret(events[index]) matches Some(derived) ==> at + 1 < log.len()
                    && log[at + 1] == derived
            }),
    {
        let before = self.push_events(events.take(index));
        let through = events.take(index + 1);
        assert(through.drop_last() =~= events.take(index));
        assert(through.last() == events[index]);
        let next = self.push_events(through);
        assert(next == before.push_event(events[index]));
        self.lemma_log_extends(events, index);
        self.lemma_log_extends(events, index + 1);
        self.lemma_log_length(events.take(index));
        let log = self.push_events(events).events;
        let at = before.events.len() as int;
        assert(next.events[at] == events[index]);
        assert(log.subrange(0, next.events.len() as int)[at] == log[at]);
        if before.interpret(events[index]) is Some {
            assert(next.events[at + 1] == before.interpret(events[index]).unwrap());
            assert(log.subrange(0, next.events.len() as int)[at + 1] == log[at + 1]);
        }
    }
}

/// Aggregates and interprets the raw input of one user interface.
///
/// The two snapshots of the input state, the log and the drag threshold are
/// the aggregator's own: they are read through its methods, and change only
/// through [`GlobalInput::push_event`] and [`GlobalInput::reset`].
pub struct GlobalInput {
    /// The input state as it was at the end of the last update cycle.
    start_state: InputState,
    /// The input state after every event of this update cycle.
    current_state: InputState,
    events: Vec<UiEvent>,
    drag_threshold: u64,
}

impl View for GlobalInput {
    type V = GlobalInputView;

    closed spec fn view(&self) -> GlobalInputView {
        GlobalInputView {
            start_state: self.start_state@,
            current_state: self.current_state@,
            events: self.events@,
            drag_threshold: self.drag_threshold,
        }
    }
}

impl GlobalInput {
    /// A new aggregator with the given drag threshold: no event logged, both
    /// states as before any input.
    pub fn new(drag_threshold: u64) -> (input: GlobalInput)
        ensures
            input@ == GlobalInputView::new(drag_threshold),
    {
        GlobalInput {
            events: Vec::new(),
            drag_threshold,
            start_state: InputState::new(),
            current_state: InputState::new(),
        }
    }

    /// Takes in `event`: interprets it, brings the current state up to date
    /// with it, and logs it, followed by the event derived from it, if any.
    ///
    /// A derived event is taken in like any other, by a call of this function
    /// from itself. It is never raw input, so it derives nothing in its turn:
    /// the calls nest no deeper than that.
    pub fn push_event(&mut self, event: UiEvent)
        ensures
            final(self)@ == old(self)@.push_event(event),
        decreases event.derivation_depth(),
    {
        let maybe_new_event = match &event {
            UiEvent::Raw(Input::Release(Button::Mouse(button))) => self.handle_mouse_release(
                *button,
            ),
            UiEvent::Raw(Input::Move(Motion::MouseRelative(x, y))) => self.handle_mouse_move(
                Point::new(*x, *y),
            ),
            UiEvent::Raw(Input::Move(Motion::MouseScroll(x, y))) => self.mouse_scroll(*x, *y),
            _ => None,
        };

        self.current_state.update(&event);
        self.events.push(event);
        if let Some(new_event) = maybe_new_event {
            self.push_event(new_event);
        }
    }

    /// Prepares the aggregator for the next update cycle: the log is cleared,
    /// and the current state becomes the state at the start of the cycle.
    pub fn reset(&mut self)
        ensures
            final(self)@ == old(self)@.reset(),
    {
        self.events.clear();
        self.start_state = self.current_state;
    }

    /// Every event of this update cycle, given or derived, in the order in
    /// which it was logged.
    pub fn all_events(&self) -> (events: &[UiEvent])
        ensures
            events@ == self@.events,
    {
        self.events.as_slice()
    }

    /// The input state after every event of this update cycle.
    pub fn current_state(&self) -> (state: &InputState)
        ensures
            state@ == self@.current_state,
    {
        &self.current_state
    }

    /// Where the pointer is now, if `button` is held; `None` if it is not.
    ///
    /// The place where the button went down is in the `mouse_buttons` of
    /// [`GlobalInput::current_state`].
    pub fn mouse_button_down(&self, button: MouseButton) -> (position: Option<Point>)
        ensures
            position == (if self@.current_state.mouse_buttons.dom().contains(button) {
                Some(self@.current_state.mouse_position)
            } else {
                None
            }),
    {
        match self.current_state.mouse_buttons.get(button) {
            Some(_) => Some(self.mouse_position()),
            None => None,
        }
    }

    /// Where the pointer is now.
    pub fn mouse_position(&self) -> (position: Point)
        ensures
            position == self@.current_state.mouse_position,
    {
        self.current_state.mouse_position
    }

    /// The input state as it was at the end of the last update cycle.
    pub fn starting_state(&self) -> (state: &InputState)
        ensures
            state@ == self@.start_state,
    {
        &self.start_state
    }

    /// The widget that captures the mouse now, if any.
    pub fn currently_capturing_mouse(&self) -> (widget: Option<Index>)
        ensures
            widget == self@.current_state.widget_capturing_mouse,
    {
        self.current_state.widget_capturing_mouse
    }

    /// The widget that captures the keyboard now, if any.
    pub fn currently_capturing_keyboard(&self) -> (widget: Option<Index>)
        ensures
            widget == self@.current_state.widget_capturing_keyboard,
    {
        self.current_state.widget_capturing_keyboard
    }

    fn mouse_scroll(&self, x: Scalar, y: Scalar) -> (event: Option<UiEvent>)
        ensures
            event == self@.scroll_event(x, y),
    {
        Some(UiEvent::Scroll(Scroll { x, y, modifiers: self.current_state.modifiers }))
    }

    fn handle_mouse_move(&self, move_to: Point) -> (event: Option<UiEvent>)
        ensures
            event == self@.move_event(move_to),
    {
        match self.current_state.mouse_buttons.pressed_button() {
            Some((button, start)) => {
                if self.is_drag(start, move_to) {
                    Some(
                        UiEvent::MouseDrag(
                            MouseDrag {
                                button,
                                start,
                                end: move_to,
                                in_progress: true,
                                modifiers: self.current_state.modifiers,
                            },
                        ),
                    )
                } else {
                    None
                }
            },
            None => None,
        }
    }

    fn handle_mouse_release(&self, button: MouseButton) -> (event: Option<UiEvent>)
        ensures
            event == self@.release_event(button),
    {
        match self.current_state.mouse_buttons.get(button) {
            Some(point) => {
                if self.is_drag(point, self.current_state.mouse_position) {
                    Some(
                        UiEvent::MouseDrag(
                            MouseDrag {
                                button,
                                start: point,
                                end: self.current_state.mouse_position,
                                modifiers: self.current_state.modifiers,
                                in_progress: false,
                            },
                        ),
                    )
                } else {
                    Some(
                        UiEvent::MouseClick(
                            MouseClick {
                                button,
                                location: point,
                                modifiers: self.current_state.modifiers,
                            },
                        ),
                    )
                }
            },
            None => None,
        }
    }

    fn is_drag(&self, a: Point, b: Point) -> (drag: bool)
        ensures
            drag == self@.is_drag(a, b),
    {
        is_farther_than(a, b, self.drag_threshold)
    }
}

} // verus!

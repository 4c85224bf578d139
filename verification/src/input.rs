//! Raw input events, as the windowing layer reports them.
//!
//! These are plain values: a host turns the notifications of its event source
//! into an [`Input`] and hands it on. Nothing here interprets an event.

use crate::position::Scalar;
use vstd::prelude::*;

verus! {

/// The number of mouse buttons that can be told apart.
pub const NUM_MOUSE_BUTTONS: usize = 9;

/// A button of the mouse.
///
/// The variants are listed in the order in which held buttons are searched:
/// see [`MouseButton::index`].
#[derive(Clone, Copy, Debug, PartialEq, Eq, Hash, Structural)]
pub enum MouseButton {
    /// A button that the event source could not identify.
    Unknown,
    Left,
    Right,
    Middle,
    /// The first extra button.
    X1,
    /// The second extra button.
    X2,
    Button6,
    Button7,
    Button8,
}

impl MouseButton {
    /// The position of the button in the order of buttons.
    pub open spec fn spec_index(self) -> usize {
        match self {
            MouseButton::Unknown => 0,
            MouseButton::Left => 1,
            MouseButton::Right => 2,
            MouseButton::Middle => 3,
            MouseButton::X1 => 4,
            MouseButton::X2 => 5,
            MouseButton::Button6 => 6,
            MouseButton::Button7 => 7,
            MouseButton::Button8 => 8,
        }
    }

    /// The button at a position in the order of buttons; `Unknown` for a
    /// position past the last button.
    pub open spec fn spec_from_index(index: usize) -> MouseButton {
        if index == 1 {
            MouseButton::Left
        } else if index == 2 {
            MouseButton::Right
        } else if index == 3 {
            MouseButton::Middle
        } else if index == 4 {
            MouseButton::X1
        } else if index == 5 {
            MouseButton::X2
        } else if index == 6 {
            MouseButton::Button6
        } else if index == 7 {
            MouseButton::Button7
        } else if index == 8 {
            MouseButton::Button8
        } else {
            MouseButton::Unknown
        }
    }

    /// The position of the button in the order of buttons, below
    /// [`NUM_MOUSE_BUTTONS`].
    #[verifier::when_used_as_spec(spec_index)]
    pub fn index(self) -> (index: usize)
        ensures
            index == self.spec_index(),
            index < NUM_MOUSE_BUTTONS,
    {
        match self {
            MouseButton::Unknown => 0,
            MouseButton::Left => 1,
            MouseButton::Right => 2,
            MouseButton::Middle => 3,
            MouseButton::X1 => 4,
            MouseButton::X2 => 5,
            MouseButton::Button6 => 6,
            MouseButton::Button7 => 7,
            MouseButton::Button8 => 8,
        }
    }

    /// The button at a position in the order of buttons.
    #[verifier::when_used_as_spec(spec_from_index)]
    pub fn from_index(index: usize) -> (button: MouseButton)
        ensures
            button == MouseButton::spec_from_index(index),
            index < NUM_MOUSE_BUTTONS ==> button.spec_index() == index,
    {
        match index {
            1 => MouseButton::Left,
            2 => MouseButton::Right,
            3 => MouseButton::Middle,
            4 => MouseButton::X1,
            5 => MouseButton::X2,
            6 => MouseButton::Button6,
            7 => MouseButton::Button7,
            8 => MouseButton::Button8,
            _ => MouseButton::Unknown,
        }
    }

    /// Every button is found again at its own position, so no two buttons
    /// share one.
    pub proof fn lemma_index_round_trip(self)
        ensures
            self.spec_index() < NUM_MOUSE_BUTTONS,
            MouseButton::spec_from_index(self.spec_index()) == self,
    {
    }
}

/// A modifier key, whichever of its two physical keys is held.
#[derive(Clone, Copy, Debug, PartialEq, Eq, Hash, Structural)]
pub enum Modifier {
    Ctrl,
    Shift,
    Alt,
    Gui,
}

/// The set of modifier keys that are currently held.
#[derive(Clone, Copy, Debug, PartialEq, Eq, Hash, Structural)]
pub struct Modifiers {
    pub ctrl: bool,
    pub shift: bool,
    pub alt: bool,
    pub gui: bool,
}

impl Modifiers {
    /// The empty set.
    pub open spec fn spec_none() -> Modifiers {
        Modifiers { ctrl: false, shift: false, alt: false, gui: false }
    }

    /// Whether `modifier` is in the set.
    pub open spec fn spec_contains(self, modifier: Modifier) -> bool {
        match modifier {
            Modifier::Ctrl => self.ctrl,
            Modifier::Shift => self.shift,
            Modifier::Alt => self.alt,
            Modifier::Gui => self.gui,
        }
    }

    /// The set with `modifier` added.
    pub open spec fn with(self, modifier: Modifier) -> Modifiers {
        match modifier {
            Modifier::Ctrl => Modifiers { ctrl: true, ..self },
            Modifier::Shift => Modifiers { shift: true, ..self },
            Modifier::Alt => Modifiers { alt: true, ..self },
            Modifier::Gui => Modifiers { gui: true, ..self },
        }
    }

    /// The set with `modifier` taken out.
    pub open spec fn without(self, modifier: Modifier) -> Modifiers {
        match modifier {
            Modifier::Ctrl => Modifiers { ctrl: false, ..self },
            Modifier::Shift => Modifiers { shift: false, ..self },
            Modifier::Alt => Modifiers { alt: false, ..self },
            Modifier::Gui => Modifiers { gui: false, ..self },
        }
    }

    /// The empty set: no modifier is held.
    #[verifier::when_used_as_spec(spec_none)]
    pub fn none() -> (modifiers: Modifiers)
        ensures
            modifiers == Modifiers::spec_none(),
    {
        Modifiers { ctrl: false, shift: false, alt: false, gui: false }
    }

    /// Whether `modifier` is held.
    #[verifier::when_used_as_spec(spec_contains)]
    pub fn contains(self, modifier: Modifier) -> (held: bool)
        ensures
            held == self.spec_contains(modifier),
    {
        match modifier {
            Modifier::Ctrl => self.ctrl,
            Modifier::Shift => self.shift,
            Modifier::Alt => self.alt,
            Modifier::Gui => self.gui,
        }
    }

    /// Records that `modifier` is held.
    pub fn insert(&mut self, modifier: Modifier)
        ensures
            *final(self) == old(self).with(modifier),
    {
        match modifier {
            Modifier::Ctrl => {
                self.ctrl = true;
            },
            Modifier::Shift => {
                self.shift = true;
            },
            Modifier::Alt => {
                self.alt = true;
            },
            Modifier::Gui => {
                self.gui = true;
            },
        }
    }

    /// Records that `modifier` is no longer held.
    pub fn remove(&mut self, modifier: Modifier)
        ensures
            *final(self) == old(self).without(modifier),
    {
        match modifier {
            Modifier::Ctrl => {
                self.ctrl = false;
            },
            Modifier::Shift => {
                self.shift = false;
            },
            Modifier::Alt => {
                self.alt = false;
            },
            Modifier::Gui => {
                self.gui = false;
            },
        }
    }

    /// Adding and taking out behave as on a set: each changes the membership
    /// of the one modifier it names, and of no other.
    pub proof fn lemma_membership(self, changed: Modifier, asked: Modifier)
        ensures
            self.with(changed).spec_contains(asked) == (asked == changed || self.spec_contains(
                asked,
            )),
            self.without(changed).spec_contains(asked) == (asked != changed && self.spec_contains(
                asked,
            )),
            !Modifiers::spec_none().spec_contains(asked),
    {
    }
}

/// A key of the keyboard.
///
/// The eight modifier keys are told apart; any other key is carried by the
/// code that the event source gives it.
#[derive(Clone, Copy, Debug, PartialEq, Eq, Hash, Structural)]
pub enum Key {
    LCtrl,
    LShift,
    LAlt,
    LGui,
    RCtrl,
    RShift,
    RAlt,
    RGui,
    Other(u32),
}

impl Key {
    /// The modifier that the key stands for, if it is a modifier key.
    pub open spec fn spec_modifier(self) -> Option<Modifier> {
        match self {
            Key::LCtrl | Key::RCtrl => Some(Modifier::Ctrl),
            Key::LShift | Key::RShift => Some(Modifier::Shift),
            Key::LAlt | Key::RAlt => Some(Modifier::Alt),
            Key::LGui | Key::RGui => Some(Modifier::Gui),
            Key::Other(_) => None,
        }
    }

    /// The modifier that the key stands for, if it is a modifier key.
    #[verifier::when_used_as_spec(spec_modifier)]
    pub fn modifier(self) -> (modifier: Option<Modifier>)
        ensures
            modifier == self.spec_modifier(),
    {
        match self {
            Key::LCtrl | Key::RCtrl => Some(Modifier::Ctrl),
            Key::LShift | Key::RShift => Some(Modifier::Shift),
            Key::LAlt | Key::RAlt => Some(Modifier::Alt),
            Key::LGui | Key::RGui => Some(Modifier::Gui),
            Key::Other(_) => None,
        }
    }
}

/// A button of any device.
#[derive(Clone, Copy, Debug, PartialEq, Eq, Hash, Structural)]
pub enum Button {
    Keyboard(Key),
    Mouse(MouseButton),
}

/// A motion of the pointer or of the scroll wheel.
#[derive(Clone, Copy, Debug, PartialEq, Eq, Hash, Structural)]
pub enum Motion {
    /// The pointer's position in the coordinates of the event source. It is
    /// carried through and moves nothing.
    MouseCursor(Scalar, Scalar),
    /// The pointer's new position, relative to the origin of the root window.
    MouseRelative(Scalar, Scalar),
    /// A scroll by the given amounts along the two axes.
    MouseScroll(Scalar, Scalar),
}

/// A raw input event.
#[derive(Debug, PartialEq, Eq, Hash)]
pub enum Input {
    /// A button went down.
    Press(Button),
    /// A button came up.
    Release(Button),
    /// The pointer or the scroll wheel moved.
    Move(Motion),
    /// Text was entered.
    Text(String),
    /// The window was resized to the given width and height.
    Resize(u32, u32),
    /// The window gained or lost focus.
    Focus(bool),
    /// The pointer entered or left the window.
    Cursor(bool),
}

impl Clone for Input {
    fn clone(&self) -> (copy: Input)
        ensures
            copy == *self,
    {
        match self {
            Input::Press(button) => Input::Press(*button),
            Input::Release(button) => Input::Release(*button),
            Input::Move(motion) => Input::Move(*motion),
            Input::Text(text) => Input::Text(text.clone()),
            Input::Resize(width, height) => Input::Resize(*width, *height),
            Input::Focus(focused) => Input::Focus(*focused),
            Input::Cursor(inside) => Input::Cursor(*inside),
        }
    }
}

} // verus!

//! Events of the user interface, the input state they act on, and the
//! aggregator that turns raw input into clicks, drags and scrolls.

pub mod gestures;
pub mod global_input;
pub mod input_state;
pub mod ui_event;

pub use self::global_input::{GlobalInput, GlobalInputView};
pub use self::input_state::{
    first_pressed, is_first_pressed, InputState, InputStateView, MouseButtonState,
};
pub use self::ui_event::{MouseClick, MouseDrag, Scroll, UiEvent};

//! Global input aggregation for a retained-mode user interface.
//!
//! Raw input events (button presses and releases, pointer motion, scroll
//! deltas) are fed one at a time into a [`events::GlobalInput`], which keeps a
//! snapshot of the current input state and derives clicks, drags and scrolls
//! from them.
//!
//! Coordinates and the drag threshold are integers, in device units of the
//! host's choosing, so that the test that tells a drag from a click is exact.
//! Every function of the crate is verified against its contract; the
//! theorems of [`events::gestures`] say what follows for whole gestures.

pub mod events;
pub mod input;
pub mod position;
pub mod widget;

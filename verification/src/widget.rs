//! Identifiers of widgets.

use vstd::prelude::*;

verus! {

/// Identifies one widget of the interface.
#[derive(Clone, Copy, Debug, PartialEq, Eq, Hash, Structural)]
pub enum Index {
    /// A widget that the application declared, by the identifier it chose.
    Public(usize),
    /// A widget that another widget created for its own use.
    Internal(usize),
}

} // verus!

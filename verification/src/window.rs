//! Window events.

use vstd::prelude::*;

verus! {

/// A window-related event.
#[derive(Clone, Copy, Debug, PartialEq, Eq, Hash, Structural)]
pub enum Event {
    /// The view was resized.
    Resized {
        /// The new width of the view, in physical pixels.
        width: u32,
        /// The new height of the view, in physical pixels.
        height: u32,
    },
}

} // verus!

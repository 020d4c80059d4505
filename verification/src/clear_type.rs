//! The regions of the screen that can be cleared.

use vstd::prelude::*;

verus! {

/// Which cells a clear operation blanks.
#[derive(Copy, Clone, Debug, PartialEq, Eq, PartialOrd, Ord, Hash, Structural)]
pub enum ClearType {
    /// All cells.
    All,
    /// All cells from the cursor downwards.
    FromCursorDown,
    /// All cells from the cursor upwards.
    FromCursorUp,
    /// All cells of the cursor's line.
    CurrentLine,
    /// All cells from the cursor to the end of its line.
    UntilNewLine,
}

} // verus!

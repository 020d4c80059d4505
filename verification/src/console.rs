//! Plain values that a native console reports and accepts: cell coordinates,
//! sizes, the visible window, and a snapshot of the screen buffer.

use vstd::prelude::*;

verus! {

/// A cell of the screen buffer: column `x` and row `y`, counted from zero.
#[derive(Copy, Clone, Debug, PartialEq, Eq, Structural)]
pub struct Coord {
    /// The column.
    pub x: i16,
    /// The row.
    pub y: i16,
}

/// A number of columns and a number of rows.
#[derive(Copy, Clone, Debug, PartialEq, Eq, Structural)]
pub struct Size {
    /// The number of columns.
    pub width: i16,
    /// The number of rows.
    pub height: i16,
}

/// The visible window: the first and last column and the first and last row
/// of the screen buffer that it shows.
#[derive(Copy, Clone, Debug, PartialEq, Eq, Structural)]
pub struct WindowPositions {
    /// The first column shown.
    pub left: i16,
    /// The last column shown.
    pub right: i16,
    /// The last row shown.
    pub bottom: i16,
    /// The first row shown.
    pub top: i16,
}

/// What a console reports of its active screen buffer at one moment.
#[derive(Copy, Clone, Debug, PartialEq, Eq, Structural)]
pub struct ScreenBufferInfo {
    /// Where the cursor stands.
    pub cursor_pos: Coord,
    /// The size of the whole buffer, which may exceed the window.
    pub buffer_size: Size,
    /// The colour and style word for newly written cells.
    pub attributes: u16,
    /// The part of the buffer that is visible.
    pub terminal_window: WindowPositions,
}

impl Coord {
    /// Neither coordinate is negative.
    pub open spec fn valid(self) -> bool {
        0 <= self.x && 0 <= self.y
    }

    /// The cell lies inside a buffer of the given size.
    pub open spec fn within(self, buffer_size: Size) -> bool {
        0 <= self.x < buffer_size.width && 0 <= self.y < buffer_size.height
    }

    /// The cell at column `x` of row `y`.
    pub fn new(x: i16, y: i16) -> (coord: Coord)
        ensures
            coord == (Coord { x, y }),
    {
        Coord { x, y }
    }

    /// Whether neither coordinate is negative.
    pub fn is_valid(&self) -> (ok: bool)
        ensures
            ok == self.valid(),
    {
        0 <= self.x && 0 <= self.y
    }
}

impl Size {
    /// Neither dimension is negative.
    pub open spec fn valid(self) -> bool {
        0 <= self.width && 0 <= self.height
    }

    /// The number of cells in a buffer of this size.
    pub open spec fn cells(self) -> int {
        self.width * self.height
    }

    /// A size of `width` columns and `height` rows.
    pub fn new(width: i16, height: i16) -> (size: Size)
        ensures
            size == (Size { width, height }),
    {
        Size { width, height }
    }

    /// Whether neither dimension is negative.
    pub fn is_valid(&self) -> (ok: bool)
        ensures
            ok == self.valid(),
    {
        0 <= self.width && 0 <= self.height
    }
}

impl WindowPositions {
    /// The window starts at a cell of the buffer and shows at least one cell.
    pub open spec fn valid(self) -> bool {
        0 <= self.left <= self.right && 0 <= self.top <= self.bottom
    }

    /// The window does not reach beyond a buffer of the given size.
    pub open spec fn contained_in(self, buffer_size: Size) -> bool {
        self.right <= buffer_size.width && self.bottom <= buffer_size.height
    }

    /// Columns and rows that the window shows, both ends counted.
    pub open spec fn size(self) -> (int, int) {
        (self.right - self.left + 1, self.bottom - self.top + 1)
    }

    /// Whether the window starts at a cell of the buffer and shows a cell.
    pub fn is_valid(&self) -> (ok: bool)
        ensures
            ok == self.valid(),
    {
        0 <= self.left && self.left <= self.right && 0 <= self.top && self.top <= self.bottom
    }
}

impl ScreenBufferInfo {
    /// What holds of every snapshot that a console hands out: the cursor
    /// stands on a cell of the buffer, and the window lies within the buffer.
    pub open spec fn valid(self) -> bool {
        &&& self.buffer_size.valid()
        &&& self.cursor_pos.within(self.buffer_size)
        &&& self.terminal_window.valid()
        &&& self.terminal_window.contained_in(self.buffer_size)
    }

    /// Whether the snapshot is one that a console can hand out.
    pub fn is_valid(&self) -> (ok: bool)
        ensures
            ok == self.valid(),
    {
        self.buffer_size.is_valid() && 0 <= self.cursor_pos.x && self.cursor_pos.x
            < self.buffer_size.width && 0 <= self.cursor_pos.y && self.cursor_pos.y
            < self.buffer_size.height && self.terminal_window.is_valid()
            && self.terminal_window.right <= self.buffer_size.width
            && self.terminal_window.bottom <= self.buffer_size.height
    }

    /// The size of the visible window in cells, as a terminal reports its
    /// size: columns first.
    pub fn terminal_size(&self) -> (size: (u16, u16))
        requires
            self.valid(),
        ensures
            (size.0 as int, size.1 as int) == self.terminal_window.size(),
    {
        let window = self.terminal_window;
        ((window.right - window.left) as u16 + 1, (window.bottom - window.top) as u16 + 1)
    }
}

} // verus!

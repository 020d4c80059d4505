//! The native console backend: what to overwrite for each kind of clear, where
//! a scroll moves the window, and how a resize is carried out.
//!
//! The functions here decide; none of them talks to a console.

use crate::clear_type::ClearType;
use crate::console::{Coord, ScreenBufferInfo, Size, WindowPositions};
use crate::error::{ErrorKind, ResizeFailure};
use crate::session::{Pending, Request, Session};
use vstd::prelude::*;

verus! {

/// The cells that a clear overwrites, and where it leaves the cursor.
#[derive(Copy, Clone, Debug, PartialEq, Eq)]
pub struct ClearPlan {
    /// The first cell to overwrite.
    pub start: Coord,
    /// How many cells to overwrite, row after row from `start` on.
    pub cells: u32,
    /// The attribute that the overwritten cells get.
    pub attribute: u16,
    /// The column and row to move the cursor to afterwards, if it is moved.
    pub cursor: Option<(u16, u16)>,
}

/// How a resize is carried out: the buffer size to set before the window is
/// changed, the window to set, and the buffer size to set afterwards.
#[derive(Copy, Clone, Debug, PartialEq, Eq, Structural)]
pub struct ResizePlan {
    /// The width that was asked for.
    pub width: u16,
    /// The height that was asked for.
    pub height: u16,
    /// The size to give the buffer first, where it is too small for the window.
    pub grow: Option<Size>,
    /// The window to set: the old one's left and top edge, with the new size.
    pub window: WindowPositions,
    /// The size to give the buffer once the window is set, where it was grown.
    pub restore: Option<Size>,
}

/// Every cell of the buffer, starting at its first; the cursor goes there too.
pub open spec fn spec_clear_entire_screen(buffer_size: Size, attribute: u16) -> ClearPlan {
    ClearPlan {
        start: Coord { x: 0, y: 0 },
        cells: buffer_size.cells() as u32,
        attribute,
        cursor: Some((0u16, 0u16)),
    }
}

/// From the cursor on, as many cells as the buffer has. A cursor beyond the
/// last column counts as standing at the start of the next row.
pub open spec fn spec_clear_after_cursor(
    location: Coord,
    buffer_size: Size,
    attribute: u16,
) -> ClearPlan {
    ClearPlan {
        start: if location.x > buffer_size.width {
            Coord { x: 0, y: (location.y + 1) as i16 }
        } else {
            location
        },
        cells: buffer_size.cells() as u32,
        attribute,
        cursor: None,
    }
}

/// From the first cell of the buffer up to and including the cursor's cell.
pub open spec fn spec_clear_before_cursor(
    location: Coord,
    buffer_size: Size,
    attribute: u16,
) -> ClearPlan {
    ClearPlan {
        start: Coord { x: 0, y: 0 },
        cells: (buffer_size.width * location.y + location.x + 1) as u32,
        attribute,
        cursor: None,
    }
}

/// The whole of the cursor's row; the cursor goes to the start of that row.
pub open spec fn spec_clear_current_line(
    location: Coord,
    buffer_size: Size,
    attribute: u16,
) -> ClearPlan {
    ClearPlan {
        start: Coord { x: 0, y: location.y },
        cells: buffer_size.width as u32,
        attribute,
        cursor: Some((0u16, location.y as u16)),
    }
}

/// From the cursor to the end of its row; the cursor stays where it was.
pub open spec fn spec_clear_until_line(
    location: Coord,
    buffer_size: Size,
    attribute: u16,
) -> ClearPlan {
    ClearPlan {
        start: location,
        cells: (buffer_size.width - location.x) as u32,
        attribute,
        cursor: Some((location.x as u16, location.y as u16)),
    }
}

/// What a clear of the given kind overwrites on a console in the given state.
pub open spec fn spec_clear_plan(clear_type: ClearType, info: ScreenBufferInfo) -> ClearPlan {
    match clear_type {
        ClearType::All => spec_clear_entire_screen(info.buffer_size, info.attributes),
        ClearType::FromCursorDown => spec_clear_after_cursor(
            info.cursor_pos,
            info.buffer_size,
            info.attributes,
        ),
        ClearType::FromCursorUp => spec_clear_before_cursor(
            info.cursor_pos,
            info.buffer_size,
            info.attributes,
        ),
        ClearType::CurrentLine => spec_clear_current_line(
            info.cursor_pos,
            info.buffer_size,
            info.attributes,
        ),
        ClearType::UntilNewLine => spec_clear_until_line(
            info.cursor_pos,
            info.buffer_size,
            info.attributes,
        ),
    }
}

/// The number of cells of a buffer fits the count that a fill takes.
proof fn lemma_cells_fit(width: int, height: int)
    requires
        0 <= width <= i16::MAX,
        0 <= height <= i16::MAX,
    ensures
        0 <= width * height <= 0x3fff_0001,
{
    assert(0 <= width * height <= 32767 * 32767) by (nonlinear_arith)
        requires
            0 <= width <= 32767,
            0 <= height <= 32767,
    ;
}

fn buffer_cells(buffer_size: Size) -> (cells: u32)
    requires
        buffer_size.valid(),
    ensures
        cells == buffer_size.cells(),
{
    proof {
        lemma_cells_fit(buffer_size.width as int, buffer_size.height as int);
    }
    buffer_size.width as u32 * buffer_size.height as u32
}

/// What clearing the whole screen overwrites.
pub fn clear_entire_screen(buffer_size: Size, current_attribute: u16) -> (plan: ClearPlan)
    requires
        buffer_size.valid(),
    ensures
        plan == spec_clear_entire_screen(buffer_size, current_attribute),
        plan.cells == buffer_size.width * buffer_size.height,
{
    ClearPlan {
        start: Coord::new(0, 0),
        cells: buffer_cells(buffer_size),
        attribute: current_attribute,
        cursor: Some((0, 0)),
    }
}

/// What clearing from the cursor down overwrites. The row after the
/// cursor's must be a console coordinate where the cursor stands beyond the
/// last column.
pub fn clear_after_cursor(location: Coord, buffer_size: Size, current_attribute: u16) -> (plan:
    ClearPlan)
    requires
        location.valid(),
        buffer_size.valid(),
        location.x > buffer_size.width ==> location.y < i16::MAX,
    ensures
        plan == spec_clear_after_cursor(location, buffer_size, current_attribute),
        plan.cells == buffer_size.width * buffer_size.height,
        location.x > buffer_size.width ==> plan.start.x == 0 && plan.start.y == location.y + 1,
{
    let (mut x, mut y) = (location.x, location.y);
    if x > buffer_size.width {
        y += 1;
        x = 0;
    }
    ClearPlan {
        start: Coord::new(x, y),
        cells: buffer_cells(buffer_size),
        attribute: current_attribute,
        cursor: None,
    }
}

/// What clearing from the cursor up overwrites.
pub fn clear_before_cursor(location: Coord, buffer_size: Size, current_attribute: u16) -> (plan:
    ClearPlan)
    requires
        location.valid(),
        buffer_size.valid(),
    ensures
        plan == spec_clear_before_cursor(location, buffer_size, current_attribute),
        plan.cells == buffer_size.width * location.y + location.x + 1,
{
    proof {
        lemma_cells_fit(buffer_size.width as int, location.y as int);
    }
    let cells_to_write: u32 = buffer_size.width as u32 * location.y as u32 + (location.x as u32
        + 1);
    ClearPlan {
        start: Coord::new(0, 0),
        cells: cells_to_write,
        attribute: current_attribute,
        cursor: None,
    }
}

/// What clearing the cursor's line overwrites.
pub fn clear_current_line(location: Coord, buffer_size: Size, current_attribute: u16) -> (plan:
    ClearPlan)
    requires
        location.valid(),
        buffer_size.valid(),
    ensures
        plan == spec_clear_current_line(location, buffer_size, current_attribute),
        plan.cells == buffer_size.width,
        plan.cursor == Some((0u16, location.y as u16)),
{
    ClearPlan {
        start: Coord::new(0, location.y),
        cells: buffer_size.width as u32,
        attribute: current_attribute,
        cursor: Some((0, location.y as u16)),
    }
}

/// What clearing from the cursor to the end of its line overwrites. The
/// cursor must not stand beyond the buffer's width.
pub fn clear_until_line(location: Coord, buffer_size: Size, current_attribute: u16) -> (plan:
    ClearPlan)
    requires
        location.valid(),
        buffer_size.valid(),
        location.x <= buffer_size.width,
    ensures
        plan == spec_clear_until_line(location, buffer_size, current_attribute),
        plan.cells == buffer_size.width - location.x,
        plan.cursor == Some((location.x as u16, location.y as u16)),
{
    ClearPlan {
        start: Coord::new(location.x, location.y),
        cells: (buffer_size.width - location.x) as u32,
        attribute: current_attribute,
        cursor: Some((location.x as u16, location.y as u16)),
    }
}

/// What a clear of the given kind overwrites on a console in the given state.
pub fn clear_plan(clear_type: ClearType, info: &ScreenBufferInfo) -> (plan: ClearPlan)
    requires
        info.valid(),
    ensures
        plan == spec_clear_plan(clear_type, *info),
        plan.start.within(info.buffer_size),
        plan.attribute == info.attributes,
{
    let pos = info.cursor_pos;
    let buffer_size = info.buffer_size;
    let current_attribute = info.attributes;
    match clear_type {
        ClearType::All => clear_entire_screen(buffer_size, current_attribute),
        ClearType::FromCursorDown => clear_after_cursor(pos, buffer_size, current_attribute),
        ClearType::FromCursorUp => clear_before_cursor(pos, buffer_size, current_attribute),
        ClearType::CurrentLine => clear_current_line(pos, buffer_size, current_attribute),
        ClearType::UntilNewLine => clear_until_line(pos, buffer_size, current_attribute),
    }
}

/// Where scrolling up by `count` rows puts the window: top and bottom move
/// up by `count`. `None` where fewer than `count` rows lie above the window;
/// the window then stays as it is.
pub open spec fn spec_scroll_up(count: u16, window: WindowPositions) -> Option<WindowPositions> {
    if window.top >= count {
        Some(
            WindowPositions {
                left: window.left,
                right: window.right,
                bottom: (window.bottom - count) as i16,
                top: (window.top - count) as i16,
            },
        )
    } else {
        None
    }
}

/// Where scrolling down by `count` rows puts the window: top and bottom move
/// down by `count`. `None` where that would take the window's bottom to the
/// buffer's height or beyond; the window then stays as it is.
pub open spec fn spec_scroll_down(
    count: u16,
    window: WindowPositions,
    buffer_size: Size,
) -> Option<WindowPositions> {
    if window.bottom < buffer_size.height - count {
        Some(
            WindowPositions {
                left: window.left,
                right: window.right,
                bottom: (window.bottom + count) as i16,
                top: (window.top + count) as i16,
            },
        )
    } else {
        None
    }
}

/// Where scrolling up by `count` rows puts the window, if anywhere.
pub fn scroll_up_window(count: u16, window: WindowPositions) -> (moved: Option<WindowPositions>)
    requires
        window.valid(),
    ensures
        moved == spec_scroll_up(count, window),
        window.top < count <==> moved is None,
        moved matches Some(to) ==> {
            &&& to.top == window.top - count
            &&& to.bottom == window.bottom - count
            &&& to.left == window.left
            &&& to.right == window.right
            &&& to.valid()
        },
{
    if window.top as i32 >= count as i32 {
        let rows = count as i16;
        Some(
            WindowPositions {
                left: window.left,
                right: window.right,
                bottom: window.bottom - rows,
                top: window.top - rows,
            },
        )
    } else {
        None
    }
}

/// Where scrolling down by `count` rows puts the window, if anywhere.
pub fn scroll_down_window(count: u16, window: WindowPositions, buffer_size: Size) -> (moved: Option<
    WindowPositions,
>)
    requires
        window.valid(),
        buffer_size.valid(),
    ensures
        moved == spec_scroll_down(count, window, buffer_size),
        window.bottom >= buffer_size.height - count <==> moved is None,
        moved matches Some(to) ==> {
            &&& to.top == window.top + count
            &&& to.bottom == window.bottom + count
            &&& to.left == window.left
            &&& to.right == window.right
            &&& to.valid()
            &&& to.bottom < buffer_size.height
        },
{
    if (window.bottom as i32) < buffer_size.height as i32 - count as i32 {
        let rows = count as i16;
        Some(
            WindowPositions {
                left: window.left,
                right: window.right,
                bottom: window.bottom + rows,
                top: window.top + rows,
            },
        )
    } else {
        None
    }
}

/// How the window of a console in the given state is brought to `width`
/// columns and `height` rows.
///
/// The window keeps its left and top edge. Where the buffer ends before the
/// new right or bottom edge, it has to grow first, by as much as it lacks, for
/// a console refuses a window that reaches beyond its buffer; once the window
/// is set, the buffer is put back to the size it had. A buffer that would have
/// to grow to the largest coordinate, or beyond, is refused, the width first.
pub open spec fn spec_resize_plan(width: u16, height: u16, info: ScreenBufferInfo) -> Result<
    ResizePlan,
    ResizeFailure,
> {
    let current = info.buffer_size;
    let window = info.terminal_window;
    let grow_width = current.width < window.left + width;
    let grow_height = current.height < window.top + height;
    if grow_width && window.left + width >= i16::MAX {
        Err(ResizeFailure::WidthOutOfRange)
    } else if grow_height && window.top + height >= i16::MAX {
        Err(ResizeFailure::HeightOutOfRange)
    } else {
        let new_width = if grow_width {
            window.left + width
        } else {
            current.width as int
        };
        let new_height = if grow_height {
            window.top + height
        } else {
            current.height as int
        };
        Ok(
            ResizePlan {
                width,
                height,
                grow: if grow_width || grow_height {
                    Some(Size { width: new_width as i16, height: new_height as i16 })
                } else {
                    None
                },
                window: WindowPositions {
                    left: window.left,
                    right: (window.left + width - 1) as i16,
                    bottom: (window.top + height - 1) as i16,
                    top: window.top,
                },
                restore: if grow_width || grow_height {
                    Some(current)
                } else {
                    None
                },
            },
        )
    }
}

/// How the window of a console in the given state is brought to `width`
/// columns and `height` rows, or why it cannot be.
pub fn resize_plan(width: u16, height: u16, info: &ScreenBufferInfo) -> (planned: Result<
    ResizePlan,
    ResizeFailure,
>)
    requires
        info.valid(),
    ensures
        planned == spec_resize_plan(width, height, *info),
        info.terminal_window.left + width > i16::MAX || info.terminal_window.top + height
            > i16::MAX ==> planned is Err,
        planned matches Ok(plan) ==> {
            &&& plan.width == width && plan.height == height
            &&& plan.window.left == info.terminal_window.left
            &&& plan.window.top == info.terminal_window.top
            &&& plan.window.right == info.terminal_window.left + width - 1
            &&& plan.window.bottom == info.terminal_window.top + height - 1
            &&& plan.grow is Some <==> info.buffer_size.width < info.terminal_window.left + width
                || info.buffer_size.height < info.terminal_window.top + height
            &&& plan.grow matches Some(grown) ==> {
                &&& grown.width == if info.buffer_size.width < info.terminal_window.left + width {
                    info.terminal_window.left + width
                } else {
                    info.buffer_size.width as int
                }
                &&& grown.height == if info.buffer_size.height < info.terminal_window.top
                    + height {
                    info.terminal_window.top + height
                } else {
                    info.buffer_size.height as int
                }
                &&& plan.restore == Some(info.buffer_size)
            }
            &&& plan.grow is None ==> plan.restore is None
        },
{
    let current_size = info.buffer_size;
    let window = info.terminal_window;
    let mut new_width: i32 = current_size.width as i32;
    let mut new_height: i32 = current_size.height as i32;
    let mut resize_buffer = false;

    let right_edge: i32 = window.left as i32 + width as i32;
    if (current_size.width as i32) < right_edge {
        if right_edge >= i16::MAX as i32 {
            return Err(ResizeFailure::WidthOutOfRange);
        }
        new_width = right_edge;
        resize_buffer = true;
    }
    let bottom_edge: i32 = window.top as i32 + height as i32;
    if (current_size.height as i32) < bottom_edge {
        if bottom_edge >= i16::MAX as i32 {
            return Err(ResizeFailure::HeightOutOfRange);
        }
        new_height = bottom_edge;
        resize_buffer = true;
    }
    let resized = WindowPositions {
        left: window.left,
        right: (right_edge - 1) as i16,
        bottom: (bottom_edge - 1) as i16,
        top: window.top,
    };
    if resize_buffer {
        Ok(
            ResizePlan {
                width,
                height,
                grow: Some(Size::new(new_width as i16, new_height as i16)),
                window: resized,
                restore: Some(current_size),
            },
        )
    } else {
        Ok(ResizePlan { width, height, grow: None, window: resized, restore: None })
    }
}

/// Whether a window of `width` columns and `height` rows is one that the
/// console can show, `largest` being the widest and tallest it can. The width
/// is looked at first.
pub open spec fn spec_check_largest(width: u16, height: u16, largest: Coord) -> Result<
    (),
    ResizeFailure,
> {
    if width > largest.x {
        Err(ResizeFailure::WidthBeyondLargest { width })
    } else if height > largest.y {
        Err(ResizeFailure::HeightBeyondLargest { width })
    } else {
        Ok(())
    }
}

/// Holds a window of `width` columns and `height` rows against the largest
/// that the console can show.
pub fn check_largest(width: u16, height: u16, largest: Coord) -> (checked: Result<
    (),
    ResizeFailure,
>)
    ensures
        checked == spec_check_largest(width, height, largest),
        checked is Ok <==> width <= largest.x && height <= largest.y,
{
    if width as i32 > largest.x as i32 {
        Err(ResizeFailure::WidthBeyondLargest { width })
    } else if height as i32 > largest.y as i32 {
        Err(ResizeFailure::HeightBeyondLargest { width })
    } else {
        Ok(())
    }
}

/// The backend for consoles that do not read control sequences. It keeps
/// nothing: every operation starts from a fresh snapshot of the console.
pub struct WinApiTerminal;

impl WinApiTerminal {
    /// How a resize to the given size starts: a width or a height of zero is
    /// refused at once, the width first; otherwise a snapshot is taken.
    pub open spec fn spec_set_size(width: u16, height: u16) -> Session {
        if width == 0 {
            Session::refused(ResizeFailure::WidthBelowOne)
        } else if height == 0 {
            Session::refused(ResizeFailure::HeightBelowOne)
        } else {
            Session::Call(Request::ScreenBufferInfo, Pending::Resize { width, height })
        }
    }

    /// A backend for the native console.
    pub fn new() -> Box<WinApiTerminal> {
        Box::new(WinApiTerminal)
    }

    /// Clears the given region: takes a snapshot, fills the cells that
    /// [`spec_clear_plan`] names with blanks, then with the snapshot's
    /// attribute, and moves the cursor where the plan says so.
    pub fn clear(&self, clear_type: ClearType) -> (session: Session)
        ensures
            session == Session::Call(Request::ScreenBufferInfo, Pending::Clear(clear_type)),
    {
        Session::Call(Request::ScreenBufferInfo, Pending::Clear(clear_type))
    }

    /// Reads the terminal's size: the columns and rows of the window of a
    /// fresh snapshot.
    pub fn size(&self) -> (session: Session)
        ensures
            session == Session::Call(Request::ScreenBufferInfo, Pending::WindowSize),
    {
        Session::Call(Request::ScreenBufferInfo, Pending::WindowSize)
    }

    /// Scrolls up by `count` rows: takes a snapshot and moves its window as
    /// [`spec_scroll_up`] says, or leaves it.
    pub fn scroll_up(&self, count: u16) -> (session: Session)
        ensures
            session == Session::Call(Request::ScreenBufferInfo, Pending::ScrollUp(count)),
    {
        Session::Call(Request::ScreenBufferInfo, Pending::ScrollUp(count))
    }

    /// Scrolls down by `count` rows: takes a snapshot and moves its window as
    /// [`spec_scroll_down`] says, or leaves it.
    pub fn scroll_down(&self, count: u16) -> (session: Session)
        ensures
            session == Session::Call(Request::ScreenBufferInfo, Pending::ScrollDown(count)),
    {
        Session::Call(Request::ScreenBufferInfo, Pending::ScrollDown(count))
    }

    /// Resizes the window to `width` columns and `height` rows: refuses a
    /// zero, takes a snapshot, and goes by [`spec_resize_plan`]. At the end
    /// the size is held against the largest window the console can show.
    pub fn set_size(&self, width: u16, height: u16) -> (session: Session)
        ensures
            session == Self::spec_set_size(width, height),
            width == 0 || height == 0 ==> session matches Session::Finished(
                Err(ErrorKind::ResizingTerminalFailure(_)),
            ),
    {
        if width == 0 {
            return Session::Finished(
                Err(ErrorKind::ResizingTerminalFailure(ResizeFailure::WidthBelowOne)),
            );
        }
        if height == 0 {
            return Session::Finished(
                Err(ErrorKind::ResizingTerminalFailure(ResizeFailure::HeightBelowOne)),
            );
        }
        Session::Call(Request::ScreenBufferInfo, Pending::Resize { width, height })
    }
}

} // verus!

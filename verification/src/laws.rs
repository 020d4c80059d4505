//! What whole operations on the native console come to: the requests that a
//! session makes, in their order, when the console answers as a console does.

use crate::clear_type::ClearType;
use crate::console::{Coord, ScreenBufferInfo};
use crate::error::ErrorKind;
use crate::session::{Outcome, Pending, Reply, Request, Session};
use crate::winapi::{spec_clear_plan, spec_resize_plan, WinApiTerminal};
use vstd::prelude::*;

verus! {

/// The session of a clear, once the snapshot `info` has come in.
pub open spec fn clear_on(clear_type: ClearType, info: ScreenBufferInfo) -> Session {
    Session::Call(Request::ScreenBufferInfo, Pending::Clear(clear_type)).spec_resume(
        Reply::ScreenBufferInfo(info),
    )
}

/// The number of cells of a buffer, and of any part of it up to a cell in it,
/// fits the count that a fill takes.
proof fn lemma_counts_fit(info: ScreenBufferInfo)
    requires
        info.valid(),
    ensures
        0 <= info.buffer_size.width * info.buffer_size.height <= u32::MAX,
        0 <= info.buffer_size.width * info.cursor_pos.y + info.cursor_pos.x + 1 <= u32::MAX,
{
    let width = info.buffer_size.width as int;
    let height = info.buffer_size.height as int;
    let row = info.cursor_pos.y as int;
    assert(0 <= width * height <= 32767 * 32767) by (nonlinear_arith)
        requires
            0 <= width <= 32767,
            0 <= height <= 32767,
    ;
    assert(0 <= width * row <= 32767 * 32767) by (nonlinear_arith)
        requires
            0 <= width <= 32767,
            0 <= row <= 32767,
    ;
}

/// Whatever is cleared, the console is asked to fill cells from a start that
/// lies inside the buffer: first with blanks, then, the same cells, with the
/// attribute of the snapshot. After that the cursor is moved where the plan
/// names a place, and the clear is done.
pub proof fn lemma_clear_run(clear_type: ClearType, info: ScreenBufferInfo)
    requires
        info.valid(),
    ensures
        ({
            let plan = spec_clear_plan(clear_type, info);
            let blanks = clear_on(clear_type, info);
            let attributes = blanks.spec_resume(Reply::Done);
            let cursor = attributes.spec_resume(Reply::Done);
            &&& plan.start.within(info.buffer_size)
            &&& plan.cells >= 0
            &&& blanks == Session::Call(
                Request::FillCharacter { start: plan.start, cells: plan.cells, filling: ' ' },
                Pending::Characters(plan),
            )
            &&& attributes == Session::Call(
                Request::FillAttribute {
                    start: plan.start,
                    cells: plan.cells,
                    attribute: info.attributes,
                },
                Pending::Attributes(plan),
            )
            &&& match plan.cursor {
                Some(to) => cursor == Session::Call(
                    Request::MoveCursor { x: to.0, y: to.1 },
                    Pending::Last,
                ) && cursor.spec_resume(Reply::Done) == Session::done(),
                None => cursor == Session::done(),
            }
        }),
{
}

/// Clearing the whole screen fills as many cells as the buffer has, from its
/// first cell on, and puts the cursor on that cell.
pub proof fn lemma_clear_all(info: ScreenBufferInfo)
    requires
        info.valid(),
    ensures
        ({
            let plan = spec_clear_plan(ClearType::All, info);
            &&& plan.start == (Coord { x: 0, y: 0 })
            &&& plan.cells == info.buffer_size.width * info.buffer_size.height
            &&& plan.cursor == Some((0u16, 0u16))
        }),
{
    lemma_counts_fit(info);
}

/// Clearing from the cursor down starts at the cursor and fills as many
/// cells as the whole buffer has, whatever part of it lies before the cursor.
/// The cursor is not moved.
pub proof fn lemma_clear_from_cursor_down(info: ScreenBufferInfo)
    requires
        info.valid(),
    ensures
        ({
            let plan = spec_clear_plan(ClearType::FromCursorDown, info);
            &&& plan.start == info.cursor_pos
            &&& plan.cells == info.buffer_size.width * info.buffer_size.height
            &&& plan.cursor is None
        }),
{
    lemma_counts_fit(info);
}

/// Clearing from the cursor up fills, from the first cell of the buffer on,
/// the rows above the cursor and the cursor's row up to and including its
/// cell: the buffer's width times the cursor's row, plus its column, plus one.
/// The cursor is not moved.
pub proof fn lemma_clear_from_cursor_up(info: ScreenBufferInfo)
    requires
        info.valid(),
    ensures
        ({
            let plan = spec_clear_plan(ClearType::FromCursorUp, info);
            &&& plan.start == (Coord { x: 0, y: 0 })
            &&& plan.cells == info.buffer_size.width * info.cursor_pos.y + info.cursor_pos.x + 1
            &&& plan.cursor is None
        }),
{
    lemma_counts_fit(info);
}

/// Clearing the current line fills exactly as many cells as the buffer is
/// wide, from the first column of the cursor's row on, and leaves the cursor
/// on the first column of that row.
pub proof fn lemma_clear_current_line(info: ScreenBufferInfo)
    requires
        info.valid(),
    ensures
        ({
            let plan = spec_clear_plan(ClearType::CurrentLine, info);
            let moved = clear_on(ClearType::CurrentLine, info).spec_resume(
                Reply::Done,
            ).spec_resume(Reply::Done);
            &&& plan.start == (Coord { x: 0, y: info.cursor_pos.y })
            &&& plan.cells == info.buffer_size.width
            &&& moved matches Session::Call(Request::MoveCursor { x, y }, Pending::Last) && x == 0
                && y == info.cursor_pos.y
            &&& moved.spec_resume(Reply::Done) == Session::done()
        }),
{
}

/// Clearing until the new line fills the cells from the cursor to the end of
/// its row, and puts the cursor back where it was.
pub proof fn lemma_clear_until_new_line(info: ScreenBufferInfo)
    requires
        info.valid(),
    ensures
        ({
            let plan = spec_clear_plan(ClearType::UntilNewLine, info);
            &&& plan.start == info.cursor_pos
            &&& plan.cells == info.buffer_size.width - info.cursor_pos.x
            &&& plan.cursor matches Some(to) && to.0 == info.cursor_pos.x && to.1
                == info.cursor_pos.y
        }),
{
}

/// Scrolling up by more rows than lie above the window asks nothing of the
/// console and succeeds. Otherwise the console is asked once, for a window
/// whose top and bottom lie exactly `count` rows higher.
pub proof fn lemma_scroll_up_run(count: u16, info: ScreenBufferInfo)
    requires
        info.valid(),
    ensures
        ({
            let window = info.terminal_window;
            let asked = Session::Call(
                Request::ScreenBufferInfo,
                Pending::ScrollUp(count),
            ).spec_resume(Reply::ScreenBufferInfo(info));
            &&& window.top < count ==> asked == Session::done()
            &&& window.top >= count ==> {
                &&& asked matches Session::Call(
                    Request::SetWindowInfo { absolute, window: to },
                    Pending::Last,
                ) && !absolute && to.top == window.top - count && to.bottom == window.bottom
                    - count && to.left == window.left && to.right == window.right
                &&& asked.spec_resume(Reply::Done) == Session::done()
            }
        }),
{
}

/// Scrolling down by `count` rows asks nothing of the console, and succeeds,
/// where the window's bottom is at the buffer's height less `count`, or
/// below. Otherwise the console is asked once, for a window whose top and
/// bottom lie exactly `count` rows lower.
pub proof fn lemma_scroll_down_run(count: u16, info: ScreenBufferInfo)
    requires
        info.valid(),
    ensures
        ({
            let window = info.terminal_window;
            let asked = Session::Call(
                Request::ScreenBufferInfo,
                Pending::ScrollDown(count),
            ).spec_resume(Reply::ScreenBufferInfo(info));
            &&& window.bottom >= info.buffer_size.height - count ==> asked == Session::done()
            &&& window.bottom < info.buffer_size.height - count ==> {
                &&& asked matches Session::Call(
                    Request::SetWindowInfo { absolute, window: to },
                    Pending::Last,
                ) && !absolute && to.top == window.top + count && to.bottom == window.bottom
                    + count && to.left == window.left && to.right == window.right
                &&& asked.spec_resume(Reply::Done) == Session::done()
            }
        }),
{
}

/// A resize to no columns, or to no rows, is refused as a resize failure
/// before the console is asked anything.
pub proof fn lemma_set_size_refuses_zero(width: u16, height: u16)
    requires
        width == 0 || height == 0,
    ensures
        WinApiTerminal::spec_set_size(width, height) matches Session::Finished(
            Err(ErrorKind::ResizingTerminalFailure(_)),
        ),
{
}

/// A resize whose new right or bottom edge would lie beyond the largest
/// console coordinate ends as a resize failure, with nothing asked of the
/// console but the snapshot.
pub proof fn lemma_set_size_guards_range(width: u16, height: u16, info: ScreenBufferInfo)
    requires
        info.valid(),
        info.terminal_window.left + width > i16::MAX || info.terminal_window.top + height
            > i16::MAX,
    ensures
        spec_resize_plan(width, height, info) is Err,
        Session::Call(Request::ScreenBufferInfo, Pending::Resize { width, height }).spec_resume(
            Reply::ScreenBufferInfo(info),
        ) matches Session::Finished(Err(ErrorKind::ResizingTerminalFailure(_))),
{
}

/// The requests of a resize, in their order, where the console carries out
/// each: the buffer is grown if it has to be, the window is set by buffer
/// coordinates, the buffer is put back if it was grown, and the largest
/// window is asked for. Every edge and size handed to the console is a
/// console coordinate, and the window asked for lies within the buffer as it
/// is at that moment.
pub proof fn lemma_set_size_run(width: u16, height: u16, info: ScreenBufferInfo)
    requires
        info.valid(),
        width >= 1,
        height >= 1,
        spec_resize_plan(width, height, info) is Ok,
    ensures
        ({
            let plan = spec_resize_plan(width, height, info)->Ok_0;
            let first = WinApiTerminal::spec_set_size(width, height).spec_resume(
                Reply::ScreenBufferInfo(info),
            );
            let set_window = Session::Call(
                Request::SetWindowInfo { absolute: true, window: plan.window },
                Pending::Window(plan),
            );
            let largest = Session::Call(Request::LargestWindowSize, Pending::Largest(plan));
            &&& plan.window.valid()
            &&& plan.window.left == info.terminal_window.left
            &&& plan.window.top == info.terminal_window.top
            &&& plan.window.right == info.terminal_window.left + width - 1
            &&& plan.window.bottom == info.terminal_window.top + height - 1
            &&& match plan.grow {
                Some(grown) => {
                    &&& first == Session::Call(
                        Request::SetBufferSize { width: grown.width, height: grown.height },
                        Pending::Grow(plan),
                    )
                    &&& first.spec_resume(Reply::Done) == set_window
                    &&& plan.window.contained_in(grown)
                    &&& grown.width >= info.buffer_size.width
                    &&& grown.height >= info.buffer_size.height
                    &&& plan.restore == Some(info.buffer_size)
                    &&& set_window.spec_resume(Reply::Done) == Session::Call(
                        Request::SetBufferSize {
                            width: info.buffer_size.width,
                            height: info.buffer_size.height,
                        },
                        Pending::Restore(plan),
                    )
                    &&& set_window.spec_resume(Reply::Done).spec_resume(Reply::Done) == largest
                },
                None => {
                    &&& first == set_window
                    &&& plan.window.contained_in(info.buffer_size)
                    &&& set_window.spec_resume(Reply::Done) == largest
                },
            }
            &&& forall|bounds: Coord| #[trigger]
                largest.spec_resume(Reply::LargestWindowSize(bounds)) == Session::done() <==> width
                    <= bounds.x && height <= bounds.y
        }),
{
}

/// A resize and the size read after it agree: the window that a resize to
/// `width` columns and `height` rows asks for is one whose size reads as
/// `width` and `height`, on any console that has taken that window.
pub proof fn lemma_set_size_then_size(
    width: u16,
    height: u16,
    before: ScreenBufferInfo,
    after: ScreenBufferInfo,
)
    requires
        before.valid(),
        after.valid(),
        width >= 1,
        height >= 1,
        spec_resize_plan(width, height, before) matches Ok(plan) && after.terminal_window
            == plan.window,
    ensures
        Session::Call(Request::ScreenBufferInfo, Pending::WindowSize).spec_resume(
            Reply::ScreenBufferInfo(after),
        ) == Session::Finished(Ok(Outcome::Size(width, height))),
{
}

/// A request that fails ends the operation at once, and with an error: a
/// finished session stays as it is, whatever is handed to it.
pub proof fn lemma_failure_ends(pending: Pending, reply: Reply)
    requires
        reply is Failed,
        !(pending is Exit),
    ensures
        pending.spec_resume(reply) matches Session::Finished(Err(_)),
        pending.spec_resume(reply).spec_resume(reply) == pending.spec_resume(reply),
{
}

} // verus!

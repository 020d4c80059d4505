//! An operation in progress: what it asks of the platform next, and how it
//! goes on once that has been answered.
//!
//! The library never talks to a terminal. A driver takes the [`Request`] of a
//! [`Session`], carries it out, and passes the [`Reply`] to
//! [`Session::resume`], until the session has finished.

use crate::clear_type::ClearType;
use crate::console::{Coord, ScreenBufferInfo, WindowPositions};
use crate::error::{ErrorKind, ResizeFailure};
use crate::winapi::{
    check_largest, clear_plan, resize_plan, scroll_down_window, scroll_up_window,
    spec_check_largest, spec_clear_plan, spec_resize_plan, spec_scroll_down, spec_scroll_up,
    ClearPlan, ResizePlan,
};
use vstd::prelude::*;

verus! {

/// One thing for the driver to do.
#[derive(Debug, PartialEq, Eq)]
pub enum Request {
    /// Write the text to the output stream and flush it. Answered by
    /// [`Reply::Written`] with the number of bytes.
    Write(String),
    /// Ask the platform for the terminal's size. Answered by
    /// [`Reply::TerminalSize`].
    TerminalSize,
    /// End the process. Not answered.
    Exit,
    /// Take a snapshot of the console's screen buffer. Answered by
    /// [`Reply::ScreenBufferInfo`].
    ScreenBufferInfo,
    /// Write `filling` into `cells` cells, row after row from `start` on.
    FillCharacter { start: Coord, cells: u32, filling: char },
    /// Give `cells` cells, row after row from `start` on, the attribute.
    FillAttribute { start: Coord, cells: u32, attribute: u16 },
    /// Move the cursor to column `x` of row `y`.
    MoveCursor { x: u16, y: u16 },
    /// Set the console's window; `absolute` says whether the edges are
    /// buffer coordinates or offsets from the present window.
    SetWindowInfo { absolute: bool, window: WindowPositions },
    /// Set the size of the console's screen buffer.
    SetBufferSize { width: i16, height: i16 },
    /// Ask for the largest window the console can show. Answered by
    /// [`Reply::LargestWindowSize`].
    LargestWindowSize,
}

/// What came of a request.
#[derive(Copy, Clone, Debug, PartialEq, Eq, Structural)]
pub enum Reply {
    /// The call succeeded; it had nothing to report.
    Done,
    /// The call failed.
    Failed,
    /// So many bytes were written.
    Written(usize),
    /// The terminal has so many columns and rows.
    TerminalSize(u16, u16),
    /// The console's screen buffer, as it is now.
    ScreenBufferInfo(ScreenBufferInfo),
    /// The columns and rows of the largest window the console can show.
    LargestWindowSize(Coord),
}

/// What a finished operation reports.
#[derive(Copy, Clone, Debug, PartialEq, Eq, Structural)]
pub enum Outcome {
    /// Nothing but that it succeeded.
    Done,
    /// The terminal's columns and rows.
    Size(u16, u16),
    /// The number of bytes written.
    Written(usize),
}

/// Where an operation stands while one of its requests is under way: the
/// request that is being carried out, and what the operation still knows.
#[derive(Copy, Clone, Debug, PartialEq, Eq)]
pub enum Pending {
    /// A control sequence is being written. Nothing follows.
    Sequence,
    /// Text is being written. Nothing follows.
    Text,
    /// The platform is being asked for the terminal's size.
    Size,
    /// The process is being ended.
    Exit,
    /// A console call is under way after which nothing follows.
    Last,
    /// A snapshot is being taken to read the window's size from.
    WindowSize,
    /// A snapshot is being taken for a clear of the given kind.
    Clear(ClearType),
    /// A snapshot is being taken for scrolling up by so many rows.
    ScrollUp(u16),
    /// A snapshot is being taken for scrolling down by so many rows.
    ScrollDown(u16),
    /// A snapshot is being taken for a resize to the given size.
    Resize { width: u16, height: u16 },
    /// The cells of the plan are being filled with blanks.
    Characters(ClearPlan),
    /// The cells of the plan are being given their attribute.
    Attributes(ClearPlan),
    /// The buffer is being grown for the plan's window.
    Grow(ResizePlan),
    /// The plan's window is being set.
    Window(ResizePlan),
    /// The buffer is being put back after the plan's window was set.
    Restore(ResizePlan),
    /// The console is being asked for its largest window.
    Largest(ResizePlan),
}

/// An operation on the terminal, in progress or finished.
#[derive(Debug, PartialEq, Eq)]
pub enum Session {
    /// The driver is to carry out the request and to resume with its reply.
    Call(Request, Pending),
    /// The operation is over, with this result.
    Finished(Result<Outcome, ErrorKind>),
}

impl Reply {
    /// The snapshot that the reply carries, where it carries one that a
    /// console can hand out.
    pub open spec fn snapshot(self) -> Option<ScreenBufferInfo> {
        match self {
            Reply::ScreenBufferInfo(info) => if info.valid() {
                Some(info)
            } else {
                None
            },
            _ => None,
        }
    }

    fn into_snapshot(self) -> (info: Option<ScreenBufferInfo>)
        ensures
            info == self.snapshot(),
    {
        match self {
            Reply::ScreenBufferInfo(info) => if info.is_valid() {
                Some(info)
            } else {
                None
            },
            _ => None,
        }
    }

    fn is_done(&self) -> (done: bool)
        ensures
            done == (*self is Done),
    {
        match self {
            Reply::Done => true,
            _ => false,
        }
    }
}

impl Session {
    /// A session that has finished without anything to report.
    pub open spec fn done() -> Session {
        Session::Finished(Ok(Outcome::Done))
    }

    /// A session that has finished with the given error.
    pub open spec fn failed(error: ErrorKind) -> Session {
        Session::Finished(Err(error))
    }

    /// A session that has failed to resize the terminal.
    pub open spec fn refused(failure: ResizeFailure) -> Session {
        Session::Finished(Err(ErrorKind::ResizingTerminalFailure(failure)))
    }

    /// The session asks for `text` to be written, and for nothing after that.
    pub open spec fn writes(self, text: Seq<char>) -> bool {
        self matches Session::Call(Request::Write(written), Pending::Sequence) && written@ == text
    }

    /// The session as it is once the request it asked for has been answered
    /// by `reply`. A finished session stays as it is.
    pub open spec fn spec_resume(self, reply: Reply) -> Session {
        match self {
            Session::Call(_, pending) => pending.spec_resume(reply),
            Session::Finished(_) => self,
        }
    }

    /// Goes on with the operation, `reply` being what came of the request
    /// that the session asked for. A finished session stays as it is.
    pub fn resume(self, reply: Reply) -> (next: Session)
        ensures
            next == self.spec_resume(reply),
    {
        match self {
            Session::Call(_, pending) => pending.resume(reply),
            Session::Finished(result) => Session::Finished(result),
        }
    }
}

impl Pending {
    /// The first request of a resize that goes by `plan`.
    pub open spec fn spec_begin_resize(plan: ResizePlan) -> Session {
        match plan.grow {
            Some(size) => Session::Call(
                Request::SetBufferSize { width: size.width, height: size.height },
                Pending::Grow(plan),
            ),
            None => Session::Call(
                Request::SetWindowInfo { absolute: true, window: plan.window },
                Pending::Window(plan),
            ),
        }
    }

    /// How the operation goes on once the request under way has been
    /// answered by `reply`.
    ///
    /// Each request has one kind of reply that means success. Any other reply
    /// ends the operation with an error: [`ErrorKind::IoError`] for a write
    /// or a size query, a resize failure for a change of the buffer's size,
    /// [`ErrorKind::PlatformFailure`] for any other console call. A snapshot
    /// that no console can hand out counts as a failed call.
    pub open spec fn spec_resume(self, reply: Reply) -> Session {
        match self {
            Pending::Sequence => match reply {
                Reply::Written(_) => Session::done(),
                _ => Session::failed(ErrorKind::IoError),
            },
            Pending::Text => match reply {
                Reply::Written(bytes) => Session::Finished(Ok(Outcome::Written(bytes))),
                _ => Session::failed(ErrorKind::IoError),
            },
            Pending::Size => match reply {
                Reply::TerminalSize(columns, rows) => Session::Finished(
                    Ok(Outcome::Size(columns, rows)),
                ),
                _ => Session::failed(ErrorKind::IoError),
            },
            Pending::Exit => Session::done(),
            Pending::Last => if reply is Done {
                Session::done()
            } else {
                Session::failed(ErrorKind::PlatformFailure)
            },
            Pending::WindowSize => match reply.snapshot() {
                Some(info) => Session::Finished(
                    Ok(
                        Outcome::Size(
                            info.terminal_window.size().0 as u16,
                            info.terminal_window.size().1 as u16,
                        ),
                    ),
                ),
                None => Session::failed(ErrorKind::PlatformFailure),
            },
            Pending::Clear(clear_type) => match reply.snapshot() {
                Some(info) => {
                    let plan = spec_clear_plan(clear_type, info);
                    Session::Call(
                        Request::FillCharacter { start: plan.start, cells: plan.cells, filling: ' ' },
                        Pending::Characters(plan),
                    )
                },
                None => Session::failed(ErrorKind::PlatformFailure),
            },
            Pending::ScrollUp(count) => match reply.snapshot() {
                Some(info) => match spec_scroll_up(count, info.terminal_window) {
                    Some(window) => Session::Call(
                        Request::SetWindowInfo { absolute: false, window },
                        Pending::Last,
                    ),
                    None => Session::done(),
                },
                None => Session::failed(ErrorKind::PlatformFailure),
            },
            Pending::ScrollDown(count) => match reply.snapshot() {
                Some(info) => match spec_scroll_down(
                    count,
                    info.terminal_window,
                    info.buffer_size,
                ) {
                    Some(window) => Session::Call(
                        Request::SetWindowInfo { absolute: false, window },
                        Pending::Last,
                    ),
                    None => Session::done(),
                },
                None => Session::failed(ErrorKind::PlatformFailure),
            },
            Pending::Resize { width, height } => match reply.snapshot() {
                Some(info) => match spec_resize_plan(width, height, info) {
                    Ok(plan) => Pending::spec_begin_resize(plan),
                    Err(failure) => Session::refused(failure),
                },
                None => Session::failed(ErrorKind::PlatformFailure),
            },
            Pending::Characters(plan) => if reply is Done {
                Session::Call(
                    Request::FillAttribute {
                        start: plan.start,
                        cells: plan.cells,
                        attribute: plan.attribute,
                    },
                    Pending::Attributes(plan),
                )
            } else {
                Session::failed(ErrorKind::PlatformFailure)
            },
            Pending::Attributes(plan) => if reply is Done {
                match plan.cursor {
                    Some(to) => Session::Call(
                        Request::MoveCursor { x: to.0, y: to.1 },
                        Pending::Last,
                    ),
                    None => Session::done(),
                }
            } else {
                Session::failed(ErrorKind::PlatformFailure)
            },
            Pending::Grow(plan) => if reply is Done {
                Session::Call(
                    Request::SetWindowInfo { absolute: true, window: plan.window },
                    Pending::Window(plan),
                )
            } else {
                Session::refused(ResizeFailure::BufferSize)
            },
            Pending::Window(plan) => if reply is Done {
                match plan.restore {
                    Some(size) => Session::Call(
                        Request::SetBufferSize { width: size.width, height: size.height },
                        Pending::Restore(plan),
                    ),
                    None => Session::Call(Request::LargestWindowSize, Pending::Largest(plan)),
                }
            } else {
                Session::failed(ErrorKind::PlatformFailure)
            },
            Pending::Restore(plan) => if reply is Done {
                Session::Call(Request::LargestWindowSize, Pending::Largest(plan))
            } else {
                Session::refused(ResizeFailure::BufferSize)
            },
            Pending::Largest(plan) => match reply {
                Reply::LargestWindowSize(largest) => match spec_check_largest(
                    plan.width,
                    plan.height,
                    largest,
                ) {
                    Ok(_) => Session::done(),
                    Err(failure) => Session::refused(failure),
                },
                _ => Session::failed(ErrorKind::PlatformFailure),
            },
        }
    }

    fn begin_resize(plan: ResizePlan) -> (session: Session)
        ensures
            session == Pending::spec_begin_resize(plan),
    {
        match plan.grow {
            Some(size) => Session::Call(
                Request::SetBufferSize { width: size.width, height: size.height },
                Pending::Grow(plan),
            ),
            None => Session::Call(
                Request::SetWindowInfo { absolute: true, window: plan.window },
                Pending::Window(plan),
            ),
        }
    }

    /// Goes on with the operation, `reply` being what came of the request
    /// under way.
    pub fn resume(self, reply: Reply) -> (next: Session)
        ensures
            next == self.spec_resume(reply),
    {
        let platform_failure = Session::Finished(Err(ErrorKind::PlatformFailure));
        let io_error = Session::Finished(Err(ErrorKind::IoError));
        let buffer_failure = Session::Finished(
            Err(ErrorKind::ResizingTerminalFailure(ResizeFailure::BufferSize)),
        );
        let done = Session::Finished(Ok(Outcome::Done));
        match self {
            Pending::Sequence => match reply {
                Reply::Written(_) => done,
                _ => io_error,
            },
            Pending::Text => match reply {
                Reply::Written(bytes) => Session::Finished(Ok(Outcome::Written(bytes))),
                _ => io_error,
            },
            Pending::Size => match reply {
                Reply::TerminalSize(columns, rows) => Session::Finished(
                    Ok(Outcome::Size(columns, rows)),
                ),
                _ => io_error,
            },
            Pending::Exit => done,
            Pending::Last => if reply.is_done() {
                done
            } else {
                platform_failure
            },
            Pending::WindowSize => match reply.into_snapshot() {
                Some(info) => {
                    let (columns, rows) = info.terminal_size();
                    Session::Finished(Ok(Outcome::Size(columns, rows)))
                },
                None => platform_failure,
            },
            Pending::Clear(clear_type) => match reply.into_snapshot() {
                Some(info) => {
                    let plan = clear_plan(clear_type, &info);
                    Session::Call(
                        Request::FillCharacter { start: plan.start, cells: plan.cells, filling: ' ' },
                        Pending::Characters(plan),
                    )
                },
                None => platform_failure,
            },
            Pending::ScrollUp(count) => match reply.into_snapshot() {
                Some(info) => match scroll_up_window(count, info.terminal_window) {
                    Some(window) => Session::Call(
                        Request::SetWindowInfo { absolute: false, window },
                        Pending::Last,
                    ),
                    None => done,
                },
                None => platform_failure,
            },
            Pending::ScrollDown(count) => match reply.into_snapshot() {
                Some(info) => match scroll_down_window(
                    count,
                    info.terminal_window,
                    info.buffer_size,
                ) {
                    Some(window) => Session::Call(
                        Request::SetWindowInfo { absolute: false, window },
                        Pending::Last,
                    ),
                    None => done,
                },
                None => platform_failure,
            },
            Pending::Resize { width, height } => match reply.into_snapshot() {
                Some(info) => match resize_plan(width, height, &info) {
                    Ok(plan) => Pending::begin_resize(plan),
                    Err(failure) => Session::Finished(
                        Err(ErrorKind::ResizingTerminalFailure(failure)),
                    ),
                },
                None => platform_failure,
            },
            Pending::Characters(plan) => if reply.is_done() {
                Session::Call(
                    Request::FillAttribute {
                        start: plan.start,
                        cells: plan.cells,
                        attribute: plan.attribute,
                    },
                    Pending::Attributes(plan),
                )
            } else {
                platform_failure
            },
            Pending::Attributes(plan) => if reply.is_done() {
                match plan.cursor {
                    Some(to) => Session::Call(
                        Request::MoveCursor { x: to.0, y: to.1 },
                        Pending::Last,
                    ),
                    None => done,
                }
            } else {
                platform_failure
            },
            Pending::Grow(plan) => if reply.is_done() {
                Session::Call(
                    Request::SetWindowInfo { absolute: true, window: plan.window },
                    Pending::Window(plan),
                )
            } else {
                buffer_failure
            },
            Pending::Window(plan) => if reply.is_done() {
                match plan.restore {
                    Some(size) => Session::Call(
                        Request::SetBufferSize { width: size.width, height: size.height },
                        Pending::Restore(plan),
                    ),
                    None => Session::Call(Request::LargestWindowSize, Pending::Largest(plan)),
                }
            } else {
                platform_failure
            },
            Pending::Restore(plan) => if reply.is_done() {
                Session::Call(Request::LargestWindowSize, Pending::Largest(plan))
            } else {
                buffer_failure
            },
            Pending::Largest(plan) => match reply {
                Reply::LargestWindowSize(largest) => match check_largest(
                    plan.width,
                    plan.height,
                    largest,
                ) {
                    Ok(_) => done,
                    Err(failure) => Session::Finished(
                        Err(ErrorKind::ResizingTerminalFailure(failure)),
                    ),
                },
                _ => platform_failure,
            },
        }
    }
}

} // verus!

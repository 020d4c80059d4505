use crossterm_terminal::console::{Coord, ScreenBufferInfo, Size, WindowPositions};
use crossterm_terminal::winapi::{
    check_largest, clear_after_cursor, clear_before_cursor, clear_current_line,
    clear_entire_screen, clear_plan, clear_until_line, resize_plan, scroll_down_window,
    scroll_up_window, ClearPlan, ResizePlan, WinApiTerminal,
};
use crossterm_terminal::{
    Clear, ClearType, ErrorKind, Outcome, Pending, Reply, Request, ResizeFailure, ScrollDown,
    ScrollUp, Session, SetSize,
};

/// A console that exists only in memory. It takes every request and keeps a
/// record of them.
struct Console {
    info: ScreenBufferInfo,
    largest: Coord,
    asked: Vec<Request>,
    /// The request, counted from one, that the console fails; none for zero.
    fail_at: usize,
}

impl Console {
    fn new(info: ScreenBufferInfo) -> Console {
        Console { info, largest: Coord::new(240, 84), asked: Vec::new(), fail_at: 0 }
    }

    fn perform(&mut self, request: Request) -> Reply {
        let reply = if self.asked.len() + 1 == self.fail_at {
            Reply::Failed
        } else {
            match &request {
                Request::ScreenBufferInfo => Reply::ScreenBufferInfo(self.info),
                Request::LargestWindowSize => Reply::LargestWindowSize(self.largest),
                Request::SetBufferSize { width, height } => {
                    self.info.buffer_size = Size::new(*width, *height);
                    Reply::Done
                }
                Request::SetWindowInfo { absolute, window } => {
                    let old = self.info.terminal_window;
                    self.info.terminal_window = if *absolute {
                        *window
                    } else {
                        WindowPositions {
                            left: old.left + window.left,
                            right: old.right + window.right,
                            bottom: old.bottom + window.bottom,
                            top: old.top + window.top,
                        }
                    };
                    Reply::Done
                }
                Request::MoveCursor { x, y } => {
                    self.info.cursor_pos = Coord::new(*x as i16, *y as i16);
                    Reply::Done
                }
                Request::FillCharacter { .. } | Request::FillAttribute { .. } => Reply::Done,
                Request::Write(_) | Request::TerminalSize | Request::Exit => Reply::Failed,
            }
        };
        self.asked.push(request);
        reply
    }

    fn run(&mut self, mut session: Session) -> Result<Outcome, ErrorKind> {
        loop {
            match session {
                Session::Finished(result) => return result,
                Session::Call(request, pending) => {
                    let reply = self.perform(request);
                    session = pending.resume(reply);
                }
            }
        }
    }

    fn size(&mut self) -> (u16, u16) {
        match self.run(WinApiTerminal::new().size()) {
            Ok(Outcome::Size(columns, rows)) => (columns, rows),
            other => panic!("no size: {:?}", other),
        }
    }
}

fn snapshot(cursor: (i16, i16), buffer: (i16, i16), window: (i16, i16, i16, i16)) -> ScreenBufferInfo {
    ScreenBufferInfo {
        cursor_pos: Coord::new(cursor.0, cursor.1),
        buffer_size: Size::new(buffer.0, buffer.1),
        attributes: 0x1f,
        terminal_window: WindowPositions {
            left: window.0,
            top: window.1,
            right: window.2,
            bottom: window.3,
        },
    }
}

/// A console of 120 columns with 300 rows of buffer, showing 30 rows from row
/// 10 on, the cursor at column 3 of row 12.
fn usual() -> ScreenBufferInfo {
    snapshot((3, 12), (120, 300), (0, 10, 119, 39))
}

fn resize_failure(failure: ResizeFailure) -> Result<Outcome, ErrorKind> {
    Err(ErrorKind::ResizingTerminalFailure(failure))
}

#[test]
fn test_resize_winapi() {
    let mut console = Console::new(usual());
    let terminal = WinApiTerminal::new();

    let (width, height) = console.size();

    console.run(terminal.set_size(30, 30)).unwrap();
    assert_eq!((30, 30), console.size());

    // reset to previous size
    console.run(terminal.set_size(width, height)).unwrap();
    assert_eq!((width, height), console.size());
}

#[test]
fn size_counts_both_edges_of_the_window() {
    let mut console = Console::new(usual());
    assert_eq!(console.size(), (120, 30));
    assert_eq!(console.asked, vec![Request::ScreenBufferInfo]);
    assert_eq!(usual().terminal_size(), (120, 30));
    let one_cell = snapshot((0, 0), (1, 1), (0, 0, 0, 0));
    assert_eq!(one_cell.terminal_size(), (1, 1));
    let whole = snapshot((0, 0), (32767, 32767), (0, 0, 32767, 32767));
    assert_eq!(whole.terminal_size(), (32768, 32768));
}

#[test]
fn snapshots_are_held_to_what_a_console_hands_out() {
    assert!(usual().is_valid());
    assert!(snapshot((0, 0), (1, 1), (0, 0, 0, 0)).is_valid());
    // the window may end at the buffer's width and height
    assert!(snapshot((0, 0), (80, 25), (0, 0, 80, 25)).is_valid());
    assert!(!snapshot((0, 0), (80, 25), (0, 0, 81, 25)).is_valid());
    assert!(!snapshot((0, 0), (80, 25), (0, 0, 80, 26)).is_valid());
    // the cursor stands on a cell of the buffer
    assert!(!snapshot((80, 0), (80, 25), (0, 0, 79, 24)).is_valid());
    assert!(!snapshot((0, 25), (80, 25), (0, 0, 79, 24)).is_valid());
    assert!(!snapshot((-1, 0), (80, 25), (0, 0, 79, 24)).is_valid());
    assert!(!snapshot((0, -1), (80, 25), (0, 0, 79, 24)).is_valid());
    // the window has a cell, and starts inside the buffer
    assert!(!snapshot((0, 0), (80, 25), (5, 0, 4, 24)).is_valid());
    assert!(!snapshot((0, 0), (80, 25), (0, 5, 79, 4)).is_valid());
    assert!(!snapshot((0, 0), (80, 25), (-1, 0, 79, 24)).is_valid());
    assert!(!snapshot((0, 0), (80, 25), (0, -1, 79, 24)).is_valid());
    // no buffer without cells, none of negative size
    assert!(!snapshot((0, 0), (0, 0), (0, 0, 0, 0)).is_valid());
    assert!(!snapshot((0, 0), (-80, 25), (0, 0, 79, 24)).is_valid());
    assert!(Coord::new(0, 0).is_valid());
    assert!(!Coord::new(-1, 0).is_valid());
    assert!(!Coord::new(0, -1).is_valid());
    assert!(Size::new(0, 0).is_valid());
    assert!(!Size::new(0, -1).is_valid());
    assert!(!Size::new(-1, 0).is_valid());
}

#[test]
fn clear_all_fills_every_cell_from_the_first() {
    let plan = clear_entire_screen(Size::new(120, 300), 7);
    assert_eq!(
        plan,
        ClearPlan { start: Coord::new(0, 0), cells: 36000, attribute: 7, cursor: Some((0, 0)) }
    );
    assert_eq!(clear_plan(ClearType::All, &usual()).cells, 36000);
    assert_eq!(clear_entire_screen(Size::new(32767, 32767), 0).cells, 1073676289);
    assert_eq!(clear_entire_screen(Size::new(0, 0), 0).cells, 0);
}

#[test]
fn clear_from_cursor_down_counts_the_whole_buffer() {
    // The count is that of the whole buffer, not of what lies behind the
    // cursor: the console stops filling at the buffer's end.
    let plan = clear_after_cursor(Coord::new(3, 12), Size::new(120, 300), 7);
    assert_eq!(
        plan,
        ClearPlan { start: Coord::new(3, 12), cells: 36000, attribute: 7, cursor: None }
    );
    assert_eq!(clear_plan(ClearType::FromCursorDown, &usual()).start, Coord::new(3, 12));
}

#[test]
fn clear_from_cursor_down_beyond_the_last_column_starts_on_the_next_row() {
    let plan = clear_after_cursor(Coord::new(121, 12), Size::new(120, 300), 7);
    assert_eq!(plan.start, Coord::new(0, 13));
    assert_eq!(plan.cells, 36000);
    // at the width itself the cursor is left where it is
    let plan = clear_after_cursor(Coord::new(120, 12), Size::new(120, 300), 7);
    assert_eq!(plan.start, Coord::new(120, 12));
}

#[test]
fn clear_from_cursor_up_counts_up_to_the_cursor() {
    let plan = clear_before_cursor(Coord::new(3, 12), Size::new(120, 300), 7);
    assert_eq!(
        plan,
        ClearPlan { start: Coord::new(0, 0), cells: 120 * 12 + 3 + 1, attribute: 7, cursor: None }
    );
    assert_eq!(clear_before_cursor(Coord::new(0, 0), Size::new(120, 300), 7).cells, 1);
    assert_eq!(
        clear_before_cursor(Coord::new(32766, 32766), Size::new(32767, 32767), 7).cells,
        1073676289
    );
    assert_eq!(clear_plan(ClearType::FromCursorUp, &usual()).cells, 1444);
}

#[test]
fn clear_current_line_fills_one_row() {
    let plan = clear_current_line(Coord::new(3, 12), Size::new(120, 300), 7);
    assert_eq!(
        plan,
        ClearPlan { start: Coord::new(0, 12), cells: 120, attribute: 7, cursor: Some((0, 12)) }
    );
}

#[test]
fn clear_until_new_line_fills_the_rest_of_the_row() {
    let plan = clear_until_line(Coord::new(3, 12), Size::new(120, 300), 7);
    assert_eq!(
        plan,
        ClearPlan { start: Coord::new(3, 12), cells: 117, attribute: 7, cursor: Some((3, 12)) }
    );
    assert_eq!(clear_until_line(Coord::new(119, 0), Size::new(120, 300), 7).cells, 1);
    assert_eq!(clear_until_line(Coord::new(120, 0), Size::new(120, 300), 7).cells, 0);
}

#[test]
fn every_clear_starts_inside_the_buffer() {
    let kinds = [
        ClearType::All,
        ClearType::FromCursorDown,
        ClearType::FromCursorUp,
        ClearType::CurrentLine,
        ClearType::UntilNewLine,
    ];
    let corners = [(0, 0), (119, 0), (0, 299), (119, 299), (3, 12)];
    for kind in kinds {
        for corner in corners {
            let info = snapshot(corner, (120, 300), (0, 10, 119, 39));
            let plan = clear_plan(kind, &info);
            assert!(0 <= plan.start.x && plan.start.x < 120);
            assert!(0 <= plan.start.y && plan.start.y < 300);
            assert_eq!(plan.attribute, 0x1f);
        }
    }
}

#[test]
fn clear_current_line_run() {
    let mut console = Console::new(usual());
    let result = console.run(WinApiTerminal::new().clear(ClearType::CurrentLine));
    assert_eq!(result, Ok(Outcome::Done));
    assert_eq!(
        console.asked,
        vec![
            Request::ScreenBufferInfo,
            Request::FillCharacter { start: Coord::new(0, 12), cells: 120, filling: ' ' },
            Request::FillAttribute { start: Coord::new(0, 12), cells: 120, attribute: 0x1f },
            Request::MoveCursor { x: 0, y: 12 },
        ]
    );
    assert_eq!(console.info.cursor_pos, Coord::new(0, 12));
}

#[test]
fn clear_all_run() {
    let mut console = Console::new(usual());
    let result = console.run(Clear(ClearType::All).execute_winapi());
    assert_eq!(result, Ok(Outcome::Done));
    assert_eq!(
        console.asked,
        vec![
            Request::ScreenBufferInfo,
            Request::FillCharacter { start: Coord::new(0, 0), cells: 36000, filling: ' ' },
            Request::FillAttribute { start: Coord::new(0, 0), cells: 36000, attribute: 0x1f },
            Request::MoveCursor { x: 0, y: 0 },
        ]
    );
}

#[test]
fn clear_from_cursor_up_run_leaves_the_cursor() {
    let mut console = Console::new(usual());
    let result = console.run(WinApiTerminal::new().clear(ClearType::FromCursorUp));
    assert_eq!(result, Ok(Outcome::Done));
    assert_eq!(
        console.asked,
        vec![
            Request::ScreenBufferInfo,
            Request::FillCharacter { start: Coord::new(0, 0), cells: 1444, filling: ' ' },
            Request::FillAttribute { start: Coord::new(0, 0), cells: 1444, attribute: 0x1f },
        ]
    );
    assert_eq!(console.info.cursor_pos, Coord::new(3, 12));
}

#[test]
fn clear_from_cursor_down_run_leaves_the_cursor() {
    let mut console = Console::new(usual());
    let result = console.run(WinApiTerminal::new().clear(ClearType::FromCursorDown));
    assert_eq!(result, Ok(Outcome::Done));
    assert_eq!(
        console.asked,
        vec![
            Request::ScreenBufferInfo,
            Request::FillCharacter { start: Coord::new(3, 12), cells: 36000, filling: ' ' },
            Request::FillAttribute { start: Coord::new(3, 12), cells: 36000, attribute: 0x1f },
        ]
    );
}

#[test]
fn clear_until_new_line_run_puts_the_cursor_back() {
    let mut console = Console::new(usual());
    let result = console.run(WinApiTerminal::new().clear(ClearType::UntilNewLine));
    assert_eq!(result, Ok(Outcome::Done));
    assert_eq!(
        console.asked,
        vec![
            Request::ScreenBufferInfo,
            Request::FillCharacter { start: Coord::new(3, 12), cells: 117, filling: ' ' },
            Request::FillAttribute { start: Coord::new(3, 12), cells: 117, attribute: 0x1f },
            Request::MoveCursor { x: 3, y: 12 },
        ]
    );
}

#[test]
fn a_failing_console_call_ends_a_clear() {
    for fail_at in 1..=4 {
        let mut console = Console::new(usual());
        console.fail_at = fail_at;
        let result = console.run(WinApiTerminal::new().clear(ClearType::All));
        assert_eq!(result, Err(ErrorKind::PlatformFailure));
        assert_eq!(console.asked.len(), fail_at);
    }
}

#[test]
fn a_snapshot_that_no_console_hands_out_is_a_platform_failure() {
    let broken = snapshot((500, 12), (120, 300), (0, 10, 119, 39));
    for session in [
        WinApiTerminal::new().clear(ClearType::UntilNewLine),
        WinApiTerminal::new().size(),
        WinApiTerminal::new().scroll_up(1),
        WinApiTerminal::new().scroll_down(1),
        WinApiTerminal::new().set_size(10, 10),
    ] {
        assert_eq!(
            session.resume(Reply::ScreenBufferInfo(broken)),
            Session::Finished(Err(ErrorKind::PlatformFailure))
        );
    }
}

#[test]
fn scroll_up_moves_top_and_bottom_up() {
    let window = WindowPositions { left: 0, top: 10, right: 119, bottom: 39 };
    assert_eq!(
        scroll_up_window(4, window),
        Some(WindowPositions { left: 0, top: 6, right: 119, bottom: 35 })
    );
    assert_eq!(
        scroll_up_window(10, window),
        Some(WindowPositions { left: 0, top: 0, right: 119, bottom: 29 })
    );
    assert_eq!(scroll_up_window(0, window), Some(window));
}

#[test]
fn scroll_up_beyond_the_top_changes_nothing() {
    let window = WindowPositions { left: 0, top: 10, right: 119, bottom: 39 };
    assert_eq!(scroll_up_window(11, window), None);
    assert_eq!(scroll_up_window(40000, window), None);
    assert_eq!(scroll_up_window(65535, window), None);

    let mut console = Console::new(usual());
    assert_eq!(console.run(WinApiTerminal::new().scroll_up(11)), Ok(Outcome::Done));
    assert_eq!(console.asked, vec![Request::ScreenBufferInfo]);
    assert_eq!(console.info, usual());
}

#[test]
fn scroll_up_run() {
    let mut console = Console::new(usual());
    assert_eq!(console.run(ScrollUp(4).execute_winapi()), Ok(Outcome::Done));
    assert_eq!(
        console.asked,
        vec![
            Request::ScreenBufferInfo,
            Request::SetWindowInfo {
                absolute: false,
                window: WindowPositions { left: 0, top: 6, right: 119, bottom: 35 },
            },
        ]
    );
}

#[test]
fn scroll_down_moves_top_and_bottom_down() {
    let window = WindowPositions { left: 0, top: 10, right: 119, bottom: 39 };
    let buffer = Size::new(120, 300);
    assert_eq!(
        scroll_down_window(4, window, buffer),
        Some(WindowPositions { left: 0, top: 14, right: 119, bottom: 43 })
    );
    // the last shift that is taken: the bottom comes to lie one above the height
    assert_eq!(
        scroll_down_window(260, window, buffer),
        Some(WindowPositions { left: 0, top: 270, right: 119, bottom: 299 })
    );
    assert_eq!(scroll_down_window(0, window, buffer), Some(window));
}

#[test]
fn scroll_down_to_the_end_of_the_buffer_changes_nothing() {
    let window = WindowPositions { left: 0, top: 10, right: 119, bottom: 39 };
    let buffer = Size::new(120, 300);
    assert_eq!(scroll_down_window(261, window, buffer), None);
    assert_eq!(scroll_down_window(300, window, buffer), None);
    assert_eq!(scroll_down_window(65535, window, buffer), None);

    let mut console = Console::new(usual());
    assert_eq!(console.run(WinApiTerminal::new().scroll_down(261)), Ok(Outcome::Done));
    assert_eq!(console.asked, vec![Request::ScreenBufferInfo]);
    assert_eq!(console.info, usual());
}

#[test]
fn scroll_down_run() {
    let mut console = Console::new(usual());
    assert_eq!(console.run(ScrollDown(4).execute_winapi()), Ok(Outcome::Done));
    assert_eq!(
        console.asked,
        vec![
            Request::ScreenBufferInfo,
            Request::SetWindowInfo {
                absolute: false,
                window: WindowPositions { left: 0, top: 14, right: 119, bottom: 43 },
            },
        ]
    );
}

#[test]
fn a_failing_window_call_ends_a_scroll() {
    let mut console = Console::new(usual());
    console.fail_at = 2;
    assert_eq!(
        console.run(WinApiTerminal::new().scroll_down(4)),
        Err(ErrorKind::PlatformFailure)
    );
}

#[test]
fn set_size_of_no_columns_or_rows_is_refused() {
    let terminal = WinApiTerminal::new();
    for other in [0, 1, 30, 65535] {
        assert_eq!(
            terminal.set_size(0, other),
            Session::Finished(Err(ErrorKind::ResizingTerminalFailure(
                ResizeFailure::WidthBelowOne
            )))
        );
    }
    for other in [1, 30, 65535] {
        assert_eq!(
            terminal.set_size(other, 0),
            Session::Finished(Err(ErrorKind::ResizingTerminalFailure(
                ResizeFailure::HeightBelowOne
            )))
        );
    }
    let mut console = Console::new(usual());
    assert_eq!(
        console.run(SetSize(0, 0).execute_winapi()),
        resize_failure(ResizeFailure::WidthBelowOne)
    );
    assert!(console.asked.is_empty());
}

#[test]
fn set_size_within_the_buffer_only_sets_the_window() {
    let mut console = Console::new(usual());
    assert_eq!(console.run(WinApiTerminal::new().set_size(30, 20)), Ok(Outcome::Done));
    assert_eq!(
        console.asked,
        vec![
            Request::ScreenBufferInfo,
            Request::SetWindowInfo {
                absolute: true,
                window: WindowPositions { left: 0, top: 10, right: 29, bottom: 29 },
            },
            Request::LargestWindowSize,
        ]
    );
    assert_eq!(
        resize_plan(30, 20, &usual()),
        Ok(ResizePlan {
            width: 30,
            height: 20,
            grow: None,
            window: WindowPositions { left: 0, top: 10, right: 29, bottom: 29 },
            restore: None,
        })
    );
}

#[test]
fn set_size_beyond_the_buffer_grows_it_and_puts_it_back() {
    let small = snapshot((0, 0), (80, 25), (0, 0, 79, 24));
    assert_eq!(
        resize_plan(100, 30, &small),
        Ok(ResizePlan {
            width: 100,
            height: 30,
            grow: Some(Size::new(100, 30)),
            window: WindowPositions { left: 0, top: 0, right: 99, bottom: 29 },
            restore: Some(Size::new(80, 25)),
        })
    );
    let mut console = Console::new(small);
    assert_eq!(console.run(WinApiTerminal::new().set_size(100, 30)), Ok(Outcome::Done));
    assert_eq!(
        console.asked,
        vec![
            Request::ScreenBufferInfo,
            Request::SetBufferSize { width: 100, height: 30 },
            Request::SetWindowInfo {
                absolute: true,
                window: WindowPositions { left: 0, top: 0, right: 99, bottom: 29 },
            },
            Request::SetBufferSize { width: 80, height: 25 },
            Request::LargestWindowSize,
        ]
    );
    assert_eq!(console.info.buffer_size, Size::new(80, 25));
}

#[test]
fn set_size_grows_only_the_side_that_is_short() {
    let small = snapshot((0, 0), (80, 25), (0, 0, 79, 24));
    assert_eq!(
        resize_plan(100, 10, &small).unwrap().grow,
        Some(Size::new(100, 25))
    );
    assert_eq!(
        resize_plan(10, 30, &small).unwrap().grow,
        Some(Size::new(80, 30))
    );
    // a window that ends where the buffer ends needs no growth
    assert_eq!(resize_plan(80, 25, &small).unwrap().grow, None);
    assert_eq!(resize_plan(81, 25, &small).unwrap().grow, Some(Size::new(81, 25)));
}

#[test]
fn set_size_out_of_the_range_of_coordinates_is_refused() {
    let far = snapshot((32000, 32000), (32767, 32767), (32000, 32000, 32010, 32010));
    assert_eq!(resize_plan(768, 10, &far), Err(ResizeFailure::WidthOutOfRange));
    assert_eq!(resize_plan(10, 768, &far), Err(ResizeFailure::HeightOutOfRange));
    assert_eq!(resize_plan(768, 768, &far), Err(ResizeFailure::WidthOutOfRange));
    // up to the buffer's own edge nothing has to grow
    assert!(resize_plan(767, 767, &far).is_ok());

    let usual = usual();
    assert_eq!(resize_plan(32767, 10, &usual), Err(ResizeFailure::WidthOutOfRange));
    assert_eq!(resize_plan(40000, 10, &usual), Err(ResizeFailure::WidthOutOfRange));
    assert_eq!(resize_plan(65535, 10, &usual), Err(ResizeFailure::WidthOutOfRange));
    assert_eq!(resize_plan(10, 32757, &usual), Err(ResizeFailure::HeightOutOfRange));
    assert_eq!(resize_plan(10, 65535, &usual), Err(ResizeFailure::HeightOutOfRange));
    // one short of the largest coordinate is still taken
    assert_eq!(
        resize_plan(32766, 32756, &usual).unwrap().window,
        WindowPositions { left: 0, top: 10, right: 32765, bottom: 32765 }
    );

    let mut console = Console::new(usual);
    assert_eq!(
        console.run(WinApiTerminal::new().set_size(40000, 10)),
        resize_failure(ResizeFailure::WidthOutOfRange)
    );
    assert_eq!(console.asked, vec![Request::ScreenBufferInfo]);
    assert_eq!(console.info, usual);
}

#[test]
fn a_buffer_that_cannot_be_resized_is_a_resize_failure() {
    let small = snapshot((0, 0), (80, 25), (0, 0, 79, 24));
    for fail_at in [2, 4] {
        let mut console = Console::new(small);
        console.fail_at = fail_at;
        assert_eq!(
            console.run(WinApiTerminal::new().set_size(100, 30)),
            resize_failure(ResizeFailure::BufferSize)
        );
        assert_eq!(console.asked.len(), fail_at);
    }
}

#[test]
fn a_window_that_cannot_be_set_is_a_platform_failure() {
    let small = snapshot((0, 0), (80, 25), (0, 0, 79, 24));
    let mut console = Console::new(small);
    console.fail_at = 3;
    assert_eq!(
        console.run(WinApiTerminal::new().set_size(100, 30)),
        Err(ErrorKind::PlatformFailure)
    );
    let mut console = Console::new(small);
    console.fail_at = 1;
    assert_eq!(
        console.run(WinApiTerminal::new().set_size(100, 30)),
        Err(ErrorKind::PlatformFailure)
    );
    let mut console = Console::new(small);
    console.fail_at = 5;
    assert_eq!(
        console.run(WinApiTerminal::new().set_size(100, 30)),
        Err(ErrorKind::PlatformFailure)
    );
}

#[test]
fn set_size_beyond_the_largest_window_fails_after_the_window_was_set() {
    let mut console = Console::new(usual());
    console.largest = Coord::new(100, 50);
    assert_eq!(
        console.run(WinApiTerminal::new().set_size(101, 20)),
        resize_failure(ResizeFailure::WidthBeyondLargest { width: 101 })
    );
    // the window was changed all the same
    assert_eq!(
        console.info.terminal_window,
        WindowPositions { left: 0, top: 10, right: 100, bottom: 29 }
    );

    let mut console = Console::new(usual());
    console.largest = Coord::new(100, 50);
    assert_eq!(
        console.run(WinApiTerminal::new().set_size(100, 51)),
        resize_failure(ResizeFailure::HeightBeyondLargest { width: 100 })
    );

    let mut console = Console::new(usual());
    console.largest = Coord::new(100, 50);
    assert_eq!(console.run(WinApiTerminal::new().set_size(100, 50)), Ok(Outcome::Done));
}

#[test]
fn the_largest_window_is_held_against_the_width_first() {
    assert_eq!(check_largest(10, 10, Coord::new(10, 10)), Ok(()));
    assert_eq!(
        check_largest(11, 11, Coord::new(10, 10)),
        Err(ResizeFailure::WidthBeyondLargest { width: 11 })
    );
    assert_eq!(
        check_largest(10, 11, Coord::new(10, 10)),
        Err(ResizeFailure::HeightBeyondLargest { width: 10 })
    );
    assert_eq!(
        check_largest(1, 1, Coord::new(-1, 5)),
        Err(ResizeFailure::WidthBeyondLargest { width: 1 })
    );
    assert_eq!(check_largest(65535, 65535, Coord::new(32767, 32767)).is_ok(), false);
}

#[test]
fn resize_failures_describe_themselves() {
    assert_eq!(
        ResizeFailure::WidthBelowOne.message(),
        "Cannot set the terminal width lower than 1"
    );
    assert_eq!(
        ResizeFailure::HeightBelowOne.message(),
        "Cannot set the terminal height lower then 1"
    );
    assert_eq!(
        ResizeFailure::WidthOutOfRange.message(),
        "Argument out of range when setting terminal width."
    );
    assert_eq!(
        ResizeFailure::HeightOutOfRange.message(),
        "Argument out of range when setting terminal height."
    );
    assert_eq!(
        ResizeFailure::BufferSize.message(),
        "Something went wrong when setting screen buffer size."
    );
    assert_eq!(
        ResizeFailure::WidthBeyondLargest { width: 101 }.message(),
        "Argument width: 101 out of range when setting terminal width."
    );
    assert_eq!(
        ResizeFailure::HeightBeyondLargest { width: 100 }.message(),
        "Argument height: 100 out of range when setting terminal height"
    );
}

#[test]
fn a_finished_session_stays_as_it_is() {
    let done = Session::Finished(Ok(Outcome::Size(3, 4)));
    assert_eq!(done.resume(Reply::Failed), Session::Finished(Ok(Outcome::Size(3, 4))));
    let failed = Session::Finished(Err(ErrorKind::IoError));
    assert_eq!(failed.resume(Reply::Done), Session::Finished(Err(ErrorKind::IoError)));
}

#[test]
fn a_reply_of_the_wrong_kind_counts_as_a_failure() {
    assert_eq!(
        Pending::Last.resume(Reply::Written(3)),
        Session::Finished(Err(ErrorKind::PlatformFailure))
    );
    assert_eq!(
        Pending::Text.resume(Reply::Done),
        Session::Finished(Err(ErrorKind::IoError))
    );
    assert_eq!(
        Pending::Size.resume(Reply::ScreenBufferInfo(usual())),
        Session::Finished(Err(ErrorKind::IoError))
    );
    assert_eq!(
        Pending::WindowSize.resume(Reply::TerminalSize(1, 1)),
        Session::Finished(Err(ErrorKind::PlatformFailure))
    );
    assert_eq!(
        Pending::Clear(ClearType::All).resume(Reply::Done),
        Session::Finished(Err(ErrorKind::PlatformFailure))
    );
}

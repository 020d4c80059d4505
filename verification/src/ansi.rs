//! The ANSI backend: every operation is one control sequence, written to the
//! terminal's output stream.

use crate::clear_type::ClearType;
use crate::decimal::{append_decimal, decimal};
use crate::session::{Pending, Request, Session};
use vstd::prelude::*;
use vstd::string::StringExecFns;

verus! {

/// Clears the whole screen.
pub const CLEAR_ALL_CSI_SEQUENCE: &'static str = "\x1B[2J";

/// Clears from the cursor to the end of the screen.
pub const CLEAR_FROM_CURSOR_DOWN_CSI_SEQUENCE: &'static str = "\x1B[J";

/// Clears from the start of the screen to the cursor.
pub const CLEAR_FROM_CURSOR_UP_CSI_SEQUENCE: &'static str = "\x1B[1J";

/// Clears the cursor's line.
pub const CLEAR_FROM_CURRENT_LINE_CSI_SEQUENCE: &'static str = "\x1B[2K";

/// Clears from the cursor to the end of its line.
pub const CLEAR_UNTIL_NEW_LINE_CSI_SEQUENCE: &'static str = "\x1B[K";

/// A control sequence: the escape character, an opening bracket, and `body`.
pub open spec fn csi(body: Seq<char>) -> Seq<char> {
    seq!['\x1B', '['] + body
}

/// The sequence that clears the given region.
pub open spec fn spec_clear_sequence(clear_type: ClearType) -> Seq<char> {
    match clear_type {
        ClearType::All => csi(seq!['2', 'J']),
        ClearType::FromCursorDown => csi(seq!['J']),
        ClearType::FromCursorUp => csi(seq!['1', 'J']),
        ClearType::CurrentLine => csi(seq!['2', 'K']),
        ClearType::UntilNewLine => csi(seq!['K']),
    }
}

/// The sequence that scrolls up by `count` rows: the count in decimal, then `S`.
pub open spec fn spec_scroll_up_sequence(count: u16) -> Seq<char> {
    csi(decimal(count as nat) + seq!['S'])
}

/// The sequence that scrolls down by `count` rows: the count in decimal, then `T`.
pub open spec fn spec_scroll_down_sequence(count: u16) -> Seq<char> {
    csi(decimal(count as nat) + seq!['T'])
}

/// The sequence that resizes the terminal: `8`, the rows, the columns, each
/// in decimal and parted by semicolons, then `t`.
pub open spec fn spec_set_size_sequence(width: u16, height: u16) -> Seq<char> {
    csi(
        seq!['8', ';'] + decimal(height as nat) + seq![';'] + decimal(width as nat) + seq!['t'],
    )
}

/// The sequence that clears the given region.
pub fn clear_csi_sequence(clear_type: ClearType) -> (sequence: &'static str)
    ensures
        sequence@ == spec_clear_sequence(clear_type),
        clear_type == ClearType::All ==> sequence@ == CLEAR_ALL_CSI_SEQUENCE@,
        clear_type == ClearType::FromCursorDown ==> sequence@
            == CLEAR_FROM_CURSOR_DOWN_CSI_SEQUENCE@,
        clear_type == ClearType::FromCursorUp ==> sequence@ == CLEAR_FROM_CURSOR_UP_CSI_SEQUENCE@,
        clear_type == ClearType::CurrentLine ==> sequence@
            == CLEAR_FROM_CURRENT_LINE_CSI_SEQUENCE@,
        clear_type == ClearType::UntilNewLine ==> sequence@ == CLEAR_UNTIL_NEW_LINE_CSI_SEQUENCE@,
{
    proof {
        reveal_strlit("\x1B[2J");
        reveal_strlit("\x1B[J");
        reveal_strlit("\x1B[1J");
        reveal_strlit("\x1B[2K");
        reveal_strlit("\x1B[K");
    }
    match clear_type {
        ClearType::All => CLEAR_ALL_CSI_SEQUENCE,
        ClearType::FromCursorDown => CLEAR_FROM_CURSOR_DOWN_CSI_SEQUENCE,
        ClearType::FromCursorUp => CLEAR_FROM_CURSOR_UP_CSI_SEQUENCE,
        ClearType::CurrentLine => CLEAR_FROM_CURRENT_LINE_CSI_SEQUENCE,
        ClearType::UntilNewLine => CLEAR_UNTIL_NEW_LINE_CSI_SEQUENCE,
    }
}

/// The sequence that scrolls up by `count` rows.
pub fn scroll_up_csi_sequence(count: u16) -> (sequence: String)
    ensures
        sequence@ == spec_scroll_up_sequence(count),
{
    proof {
        reveal_strlit("\x1B[");
        reveal_strlit("S");
    }
    let mut sequence = String::from_str("\x1B[");
    append_decimal(&mut sequence, count);
    sequence.append("S");
    assert(sequence@ =~= spec_scroll_up_sequence(count));
    sequence
}

/// The sequence that scrolls down by `count` rows.
pub fn scroll_down_csi_sequence(count: u16) -> (sequence: String)
    ensures
        sequence@ == spec_scroll_down_sequence(count),
{
    proof {
        reveal_strlit("\x1B[");
        reveal_strlit("T");
    }
    let mut sequence = String::from_str("\x1B[");
    append_decimal(&mut sequence, count);
    sequence.append("T");
    assert(sequence@ =~= spec_scroll_down_sequence(count));
    sequence
}

/// The sequence that resizes the terminal to `width` columns and `height` rows.
pub fn set_size_csi_sequence(width: u16, height: u16) -> (sequence: String)
    ensures
        sequence@ == spec_set_size_sequence(width, height),
{
    proof {
        reveal_strlit("\x1B[8;");
        reveal_strlit(";");
        reveal_strlit("t");
    }
    let mut sequence = String::from_str("\x1B[8;");
    append_decimal(&mut sequence, height);
    sequence.append(";");
    append_decimal(&mut sequence, width);
    sequence.append("t");
    assert(sequence@ =~= spec_set_size_sequence(width, height));
    sequence
}

/// The backend for terminals that read ANSI control sequences.
pub struct AnsiTerminal;

impl AnsiTerminal {
    /// A backend that writes control sequences.
    pub fn new() -> AnsiTerminal {
        AnsiTerminal
    }

    /// Clears the given region: writes its sequence.
    pub fn clear(&self, clear_type: ClearType) -> (session: Session)
        ensures
            session.writes(spec_clear_sequence(clear_type)),
    {
        Session::Call(
            Request::Write(String::from_str(clear_csi_sequence(clear_type))),
            Pending::Sequence,
        )
    }

    /// Reads the terminal's size: asks the platform.
    pub fn size(&self) -> (session: Session)
        ensures
            session == Session::Call(Request::TerminalSize, Pending::Size),
    {
        Session::Call(Request::TerminalSize, Pending::Size)
    }

    /// Scrolls up by `count` rows: writes the sequence for it.
    pub fn scroll_up(&self, count: u16) -> (session: Session)
        ensures
            session.writes(spec_scroll_up_sequence(count)),
    {
        Session::Call(Request::Write(scroll_up_csi_sequence(count)), Pending::Sequence)
    }

    /// Scrolls down by `count` rows: writes the sequence for it.
    pub fn scroll_down(&self, count: u16) -> (session: Session)
        ensures
            session.writes(spec_scroll_down_sequence(count)),
    {
        Session::Call(Request::Write(scroll_down_csi_sequence(count)), Pending::Sequence)
    }

    /// Resizes the terminal: writes the sequence for it. No size is refused.
    pub fn set_size(&self, width: u16, height: u16) -> (session: Session)
        ensures
            session.writes(spec_set_size_sequence(width, height)),
    {
        Session::Call(Request::Write(set_size_csi_sequence(width, height)), Pending::Sequence)
    }
}

} // verus!

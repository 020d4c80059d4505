//! Commands: values that stand for one operation each. A command renders
//! itself as a control sequence, and starts itself on the native console.

use crate::ansi::{
    clear_csi_sequence, scroll_down_csi_sequence, scroll_up_csi_sequence, set_size_csi_sequence,
    spec_clear_sequence, spec_scroll_down_sequence, spec_scroll_up_sequence,
    spec_set_size_sequence, CLEAR_ALL_CSI_SEQUENCE, CLEAR_FROM_CURRENT_LINE_CSI_SEQUENCE,
    CLEAR_FROM_CURSOR_DOWN_CSI_SEQUENCE, CLEAR_FROM_CURSOR_UP_CSI_SEQUENCE,
    CLEAR_UNTIL_NEW_LINE_CSI_SEQUENCE,
};
use crate::clear_type::ClearType;
use crate::session::{Pending, Request, Session};
use crate::winapi::WinApiTerminal;
use vstd::prelude::*;

verus! {

/// Scrolls the terminal up by the given number of rows.
#[derive(Copy, Clone, Debug, PartialEq, Eq, Structural)]
pub struct ScrollUp(pub u16);

/// Scrolls the terminal down by the given number of rows.
#[derive(Copy, Clone, Debug, PartialEq, Eq, Structural)]
pub struct ScrollDown(pub u16);

/// Clears the given region of the terminal.
#[derive(Copy, Clone, Debug, PartialEq, Eq, Structural)]
pub struct Clear(pub ClearType);

/// Resizes the terminal to the given width and height.
#[derive(Copy, Clone, Debug, PartialEq, Eq, Structural)]
pub struct SetSize(pub u16, pub u16);

impl ScrollUp {
    /// The control sequence that carries out the command.
    pub fn ansi_code(&self) -> (code: String)
        ensures
            code@ == spec_scroll_up_sequence(self.0),
    {
        scroll_up_csi_sequence(self.0)
    }

    /// Starts the command on the native console.
    pub fn execute_winapi(&self) -> (session: Session)
        ensures
            session == Session::Call(Request::ScreenBufferInfo, Pending::ScrollUp(self.0)),
    {
        WinApiTerminal::new().scroll_up(self.0)
    }
}

impl ScrollDown {
    /// The control sequence that carries out the command.
    pub fn ansi_code(&self) -> (code: String)
        ensures
            code@ == spec_scroll_down_sequence(self.0),
    {
        scroll_down_csi_sequence(self.0)
    }

    /// Starts the command on the native console.
    pub fn execute_winapi(&self) -> (session: Session)
        ensures
            session == Session::Call(Request::ScreenBufferInfo, Pending::ScrollDown(self.0)),
    {
        WinApiTerminal::new().scroll_down(self.0)
    }
}

impl Clear {
    /// The control sequence that carries out the command: one of the five
    /// fixed sequences, by the region.
    pub fn ansi_code(&self) -> (code: &'static str)
        ensures
            code@ == spec_clear_sequence(self.0),
            self.0 == ClearType::All ==> code@ == CLEAR_ALL_CSI_SEQUENCE@,
            self.0 == ClearType::FromCursorDown ==> code@ == CLEAR_FROM_CURSOR_DOWN_CSI_SEQUENCE@,
            self.0 == ClearType::FromCursorUp ==> code@ == CLEAR_FROM_CURSOR_UP_CSI_SEQUENCE@,
            self.0 == ClearType::CurrentLine ==> code@ == CLEAR_FROM_CURRENT_LINE_CSI_SEQUENCE@,
            self.0 == ClearType::UntilNewLine ==> code@ == CLEAR_UNTIL_NEW_LINE_CSI_SEQUENCE@,
    {
        match self.0 {
            ClearType::All => {
                return clear_csi_sequence(ClearType::All);
            },
            ClearType::FromCursorDown => {
                return clear_csi_sequence(ClearType::FromCursorDown);
            },
            ClearType::FromCursorUp => {
                return clear_csi_sequence(ClearType::FromCursorUp);
            },
            ClearType::CurrentLine => return clear_csi_sequence(ClearType::CurrentLine),
            ClearType::UntilNewLine => return clear_csi_sequence(ClearType::UntilNewLine),
        }
    }

    /// Starts the command on the native console.
    pub fn execute_winapi(&self) -> (session: Session)
        ensures
            session == Session::Call(Request::ScreenBufferInfo, Pending::Clear(self.0)),
    {
        WinApiTerminal::new().clear(self.0)
    }
}

impl SetSize {
    /// The control sequence that carries out the command.
    pub fn ansi_code(&self) -> (code: String)
        ensures
            code@ == spec_set_size_sequence(self.0, self.1),
    {
        set_size_csi_sequence(self.0, self.1)
    }

    /// Starts the command on the native console.
    pub fn execute_winapi(&self) -> (session: Session)
        ensures
            session == WinApiTerminal::spec_set_size(self.0, self.1),
    {
        WinApiTerminal::new().set_size(self.0, self.1)
    }
}

} // verus!

//! The terminal handle: one backend, picked when the handle is made, behind
//! one set of operations.

use crate::ansi::{
    spec_clear_sequence, spec_scroll_down_sequence, spec_scroll_up_sequence,
    spec_set_size_sequence, AnsiTerminal,
};
use crate::clear_type::ClearType;
use crate::session::{Pending, Request, Session};
use crate::winapi::WinApiTerminal;
use vstd::prelude::*;
use vstd::string::StringExecFns;

verus! {

/// What is known of the platform when a terminal handle is made.
#[derive(Copy, Clone, Debug, PartialEq, Eq, Structural)]
pub enum Platform {
    /// A Unix terminal. It reads control sequences.
    Unix,
    /// A Windows console, and whether it was found to read control sequences.
    Windows { supports_ansi: bool },
}

impl Platform {
    /// Only a Windows console that does not read control sequences is driven
    /// through its native calls.
    pub open spec fn native_console(self) -> bool {
        self == (Platform::Windows { supports_ansi: false })
    }
}

enum Backend {
    Ansi(AnsiTerminal),
    WinApi(Box<WinApiTerminal>),
}

/// A handle on the terminal: clearing, scrolling, resizing, reading the size.
///
/// The backend is fixed when the handle is made.
pub struct Terminal {
    terminal: Backend,
}

impl Terminal {
    /// Whether the handle drives the console through its native calls,
    /// rather than by control sequences.
    pub closed spec fn is_native(&self) -> bool {
        self.terminal is WinApi
    }

    /// A handle for the given platform.
    pub fn new(platform: Platform) -> (terminal: Terminal)
        ensures
            terminal.is_native() == platform.native_console(),
    {
        let terminal = match platform {
            Platform::Unix => Backend::Ansi(AnsiTerminal::new()),
            Platform::Windows { supports_ansi } => if supports_ansi {
                Backend::Ansi(AnsiTerminal::new())
            } else {
                Backend::WinApi(WinApiTerminal::new())
            },
        };
        Terminal { terminal }
    }

    /// Whether the handle drives the console through its native calls.
    pub fn native(&self) -> (native: bool)
        ensures
            native == self.is_native(),
    {
        match &self.terminal {
            Backend::Ansi(_) => false,
            Backend::WinApi(_) => true,
        }
    }

    /// Clears the given region of the screen.
    pub fn clear(&self, clear_type: ClearType) -> (session: Session)
        ensures
            self.is_native() ==> session == Session::Call(
                Request::ScreenBufferInfo,
                Pending::Clear(clear_type),
            ),
            !self.is_native() ==> session.writes(spec_clear_sequence(clear_type)),
    {
        match &self.terminal {
            Backend::Ansi(ansi) => ansi.clear(clear_type),
            Backend::WinApi(winapi) => winapi.clear(clear_type),
        }
    }

    /// Reads the terminal's size, columns first.
    pub fn size(&self) -> (session: Session)
        ensures
            self.is_native() ==> session == Session::Call(
                Request::ScreenBufferInfo,
                Pending::WindowSize,
            ),
            !self.is_native() ==> session == Session::Call(Request::TerminalSize, Pending::Size),
    {
        match &self.terminal {
            Backend::Ansi(ansi) => ansi.size(),
            Backend::WinApi(winapi) => winapi.size(),
        }
    }

    /// Scrolls up by `count` rows.
    pub fn scroll_up(&self, count: u16) -> (session: Session)
        ensures
            self.is_native() ==> session == Session::Call(
                Request::ScreenBufferInfo,
                Pending::ScrollUp(count),
            ),
            !self.is_native() ==> session.writes(spec_scroll_up_sequence(count)),
    {
        match &self.terminal {
            Backend::Ansi(ansi) => ansi.scroll_up(count),
            Backend::WinApi(winapi) => winapi.scroll_up(count),
        }
    }

    /// Scrolls down by `count` rows.
    pub fn scroll_down(&self, count: u16) -> (session: Session)
        ensures
            self.is_native() ==> session == Session::Call(
                Request::ScreenBufferInfo,
                Pending::ScrollDown(count),
            ),
            !self.is_native() ==> session.writes(spec_scroll_down_sequence(count)),
    {
        match &self.terminal {
            Backend::Ansi(ansi) => ansi.scroll_down(count),
            Backend::WinApi(winapi) => winapi.scroll_down(count),
        }
    }

    /// Resizes the terminal to `width` columns and `height` rows.
    pub fn set_size(&self, width: u16, height: u16) -> (session: Session)
        ensures
            self.is_native() ==> session == WinApiTerminal::spec_set_size(width, height),
            !self.is_native() ==> session.writes(spec_set_size_sequence(width, height)),
    {
        match &self.terminal {
            Backend::Ansi(ansi) => ansi.set_size(width, height),
            Backend::WinApi(winapi) => winapi.set_size(width, height),
        }
    }

    /// Ends the process.
    pub fn exit(&self) -> (session: Session)
        ensures
            session == Session::Call(Request::Exit, Pending::Exit),
    {
        Session::Call(Request::Exit, Pending::Exit)
    }

    /// Writes `value` to the terminal and flushes the stream. The session
    /// reports the number of bytes written.
    pub fn write(&self, value: &str) -> (session: Session)
        ensures
            session matches Session::Call(Request::Write(text), Pending::Text) && text@ == value@,
    {
        Session::Call(Request::Write(String::from_str(value)), Pending::Text)
    }
}

/// A terminal handle for the given platform.
pub fn terminal(platform: Platform) -> (terminal: Terminal)
    ensures
        terminal.is_native() == platform.native_console(),
{
    Terminal::new(platform)
}

} // verus!

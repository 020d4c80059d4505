//! Why a terminal operation failed.

use crate::decimal::{append_decimal, decimal};
use vstd::prelude::*;
use vstd::string::StringExecFns;

verus! {

/// Why a request to resize the terminal was turned down.
#[derive(Copy, Clone, Debug, PartialEq, Eq, Structural)]
pub enum ResizeFailure {
    /// A width of zero was asked for.
    WidthBelowOne,
    /// A height of zero was asked for.
    HeightBelowOne,
    /// The window's left edge plus the width leaves the range of console
    /// coordinates.
    WidthOutOfRange,
    /// The window's top edge plus the height leaves the range of console
    /// coordinates.
    HeightOutOfRange,
    /// The console refused to change the size of its screen buffer.
    BufferSize,
    /// The width exceeds that of the largest window the console can show.
    WidthBeyondLargest { width: u16 },
    /// The height exceeds that of the largest window the console can show.
    /// What is carried, and reported, is the width that was asked for.
    HeightBeyondLargest { width: u16 },
}

/// Why an operation on the terminal failed.
#[derive(Copy, Clone, Debug, PartialEq, Eq, Structural)]
pub enum ErrorKind {
    /// Writing to, or reading from, the terminal's stream failed.
    IoError,
    /// A call into the native console failed, or answered with something that
    /// no console hands out.
    PlatformFailure,
    /// The terminal could not be resized.
    ResizingTerminalFailure(ResizeFailure),
}

impl ResizeFailure {
    /// The text that describes the failure.
    pub open spec fn spec_message(self) -> Seq<char> {
        match self {
            ResizeFailure::WidthBelowOne => "Cannot set the terminal width lower than 1"@,
            ResizeFailure::HeightBelowOne => "Cannot set the terminal height lower then 1"@,
            ResizeFailure::WidthOutOfRange => "Argument out of range when setting terminal width."@,
            ResizeFailure::HeightOutOfRange => "Argument out of range when setting terminal height."@,
            ResizeFailure::BufferSize => "Something went wrong when setting screen buffer size."@,
            ResizeFailure::WidthBeyondLargest { width } => "Argument width: "@ + decimal(
                width as nat,
            ) + " out of range when setting terminal width."@,
            ResizeFailure::HeightBeyondLargest { width } => "Argument height: "@ + decimal(
                width as nat,
            ) + " out of range when setting terminal height"@,
        }
    }

    /// The text that describes the failure.
    pub fn message(&self) -> (text: String)
        ensures
            text@ == self.spec_message(),
    {
        match self {
            ResizeFailure::WidthBelowOne => String::from_str(
                "Cannot set the terminal width lower than 1",
            ),
            ResizeFailure::HeightBelowOne => String::from_str(
                "Cannot set the terminal height lower then 1",
            ),
            ResizeFailure::WidthOutOfRange => String::from_str(
                "Argument out of range when setting terminal width.",
            ),
            ResizeFailure::HeightOutOfRange => String::from_str(
                "Argument out of range when setting terminal height.",
            ),
            ResizeFailure::BufferSize => String::from_str(
                "Something went wrong when setting screen buffer size.",
            ),
            ResizeFailure::WidthBeyondLargest { width } => {
                let mut text = String::from_str("Argument width: ");
                append_decimal(&mut text, *width);
                text.append(" out of range when setting terminal width.");
                text
            },
            ResizeFailure::HeightBeyondLargest { width } => {
                let mut text = String::from_str("Argument height: ");
                append_decimal(&mut text, *width);
                text.append(" out of range when setting terminal height");
                text
            },
        }
    }
}

} // verus!

//! Terminal control as a pure decision core: clearing, scrolling and resizing,
//! for a terminal that reads ANSI control sequences and for a native console
//! that is driven call by call.
//!
//! Nothing here touches a terminal. Every operation yields a [`Session`]: the
//! next [`Request`] to carry out against the platform, or the operation's
//! result. A driver performs the request and hands its [`Reply`] back.

pub mod decimal;

pub mod console;
pub mod clear_type;
pub mod error;
pub mod laws;
pub mod winapi;
pub mod session;
pub mod ansi;
pub mod command;
pub mod terminal;

pub use clear_type::ClearType;
pub use command::{Clear, ScrollDown, ScrollUp, SetSize};
pub use error::{ErrorKind, ResizeFailure};
pub use session::{Outcome, Pending, Reply, Request, Session};
pub use terminal::{terminal, Platform, Terminal};

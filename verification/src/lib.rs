//! The core of a small interactive command shell: splitting an input line into
//! words, choosing what the line asks for, keeping track of the working
//! directory across `cd`, and wording what the user is told.
//!
//! Nothing here reads input, touches a file or starts a program. The caller
//! does that: it hands over what it read, carries out the [`Action`] it gets
//! back, reports how that went, and shows each [`Message`] as it stands.

pub mod cd;
pub mod command_line;
pub mod history;
pub mod laws;
pub mod message;
pub mod session;
pub mod shell;
pub mod text;
pub mod tokens;
pub mod whitespace;

pub use cd::{CdError, CdPlan};
pub use command_line::CommandLine;
pub use history::{history_shown, HistoryFailure};
pub use message::{Message, Stream};
pub use session::Session;
pub use shell::{interpret, launched, prompt, Action};
pub use tokens::tokenize;
pub use whitespace::is_whitespace;

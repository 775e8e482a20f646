//! Core logic of a clipboard server for the Model Context Protocol: text
//! truncation at character boundaries, the text of every tool reply, the
//! watch loop's decisions and the bookkeeping of the thread that keeps the
//! clipboard selection alive.

pub mod text;
pub mod error;
pub mod reply;
pub mod formats;
pub mod set_text;
pub mod holder;
pub mod watch;
pub mod http;

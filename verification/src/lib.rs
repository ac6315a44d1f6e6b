//! A line-oriented decoder for an IRC-style chat-relay wire format.
//!
//! The grammar engine classifies a line of text into an optional sender
//! prefix and a typed command with validated parameters; every parse
//! function carries a contract that pins its result to a spec function of
//! the input alone.  The message stream adapts an injected line source
//! into a sequence of decoded messages, folding transport faults and
//! parse failures into one error type.

pub mod grammar;
pub mod message;
pub mod stream;
pub mod text;

pub use grammar::{parse_command, parse_line, parse_message, parse_notice_params};
pub use message::{Command, Error, Message, NoticeParams, TransportFault};
pub use stream::{LineSource, MessageStream, VecSource};

//! The decoded message surface: the typed command variants, the error
//! taxonomy for malformed input, and spec-level models of each.  A model
//! holds the same data over `Seq<char>`, so that contracts can speak of
//! message contents mathematically; each exec type views to its model.

use vstd::prelude::*;

verus! {

/// Why the underlying byte source stopped yielding lines.
#[derive(Clone, Copy, Debug, PartialEq, Eq, Structural)]
pub enum TransportFault {
    /// The source reached end-of-stream before a full line was available.
    EndOfStream,
    /// The source failed while reading.
    ReadFailed,
}

/// A decode failure: every malformed line or transport fault becomes one
/// of these recoverable values, never a process abort.
#[derive(Clone, Debug, PartialEq, Eq)]
pub enum Error {
    /// The line did not match the minimal prefix/command grammar at all.
    InvalidLine(String),
    /// A command token was extracted but is not a recognized verb.
    InvalidCommand(String),
    /// The verb was recognized but its parameter string did not match
    /// that verb's grammar; carries the verb name and the offending text.
    InvalidParams(String, String),
    /// The underlying byte source failed or reached end-of-stream.
    TransportError(TransportFault),
}

/// Payload of a `NOTICE` command.
#[derive(Clone, Debug, PartialEq, Eq)]
pub struct NoticeParams {
    /// The recipient: a non-empty whitespace-delimited token.
    pub target: String,
    /// The notice text: the rest of the parameter string, with one
    /// optional leading `:` trailing-marker stripped; may be empty.
    pub message: String,
}

/// A protocol command with validated, typed parameters.  Unknown verbs
/// are a decode error, not a variant.
#[derive(Clone, Debug, PartialEq, Eq)]
pub enum Command {
    Notice(NoticeParams),
}

/// One decoded protocol unit: an optional sender prefix and a command.
#[derive(Clone, Debug, PartialEq, Eq)]
pub struct Message {
    /// The originating entity, present only when the raw line began with
    /// a prefix marker.
    pub prefix: Option<String>,
    pub command: Command,
}

/// Spec-level model of [`NoticeParams`].
pub struct NoticeModel {
    pub target: Seq<char>,
    pub message: Seq<char>,
}

/// Spec-level model of [`Command`].
pub enum CommandModel {
    Notice(NoticeModel),
}

/// Spec-level model of [`Message`].
pub struct MessageModel {
    pub prefix: Option<Seq<char>>,
    pub command: CommandModel,
}

/// Spec-level model of [`Error`].
pub enum ErrorModel {
    InvalidLine(Seq<char>),
    InvalidCommand(Seq<char>),
    InvalidParams(Seq<char>, Seq<char>),
    TransportError(TransportFault),
}

impl View for NoticeParams {
    type V = NoticeModel;

    open spec fn view(&self) -> NoticeModel {
        NoticeModel { target: self.target@, message: self.message@ }
    }
}

impl View for Command {
    type V = CommandModel;

    open spec fn view(&self) -> CommandModel {
        match self {
            Command::Notice(p) => CommandModel::Notice(p@),
        }
    }
}

impl View for Message {
    type V = MessageModel;

    open spec fn view(&self) -> MessageModel {
        MessageModel { prefix: self.prefix.deep_view(), command: self.command@ }
    }
}

impl View for Error {
    type V = ErrorModel;

    open spec fn view(&self) -> ErrorModel {
        match self {
            Error::InvalidLine(raw) => ErrorModel::InvalidLine(raw@),
            Error::InvalidCommand(raw) => ErrorModel::InvalidCommand(raw@),
            Error::InvalidParams(name, raw) => ErrorModel::InvalidParams(name@, raw@),
            Error::TransportError(fault) => ErrorModel::TransportError(*fault),
        }
    }
}

} // verus!

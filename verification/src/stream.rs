//! The message stream: adapts an injected line source into a sequence of
//! decoded messages, unifying transport faults and grammar failures into
//! the one error type.
//!
//! The source is abstract: anything that can hand over one line at a
//! time.  Its ghost state is the sequence of lines it still holds; a
//! successful read yields exactly the first of them.  A transport fault
//! closes the stream for good: every later read answers with the same
//! fault and never touches the source again.

use vstd::prelude::*;

use crate::grammar::{parse_message, spec_parse_message};
use crate::message::{Error, ErrorModel, Message, MessageModel, TransportFault};

verus! {

/// A line-oriented byte source: the transport side of the decoder.  An
/// implementation owns its connection; `pending` is the sequence of
/// lines it still holds, and a successful read hands over the first one.
/// A read may fail at any time with a transport fault instead.
pub trait LineSource {
    /// The lines the source still holds, oldest first.  A transport
    /// that cannot enumerate its lines ahead of time leaves the default
    /// and promises nothing beyond the shape of `read_line`.
    open spec fn pending(&self) -> Seq<Seq<char>> {
        Seq::empty()
    }

    /// Read one line, advancing past it; a line is consumed whether or
    /// not the caller goes on to decode it successfully.
    fn read_line(&mut self) -> (r: Result<String, TransportFault>)
        ensures
            r matches Ok(line) ==> ({
                &&& old(self).pending().len() > 0
                &&& line@ == old(self).pending()[0]
                &&& final(self).pending() == old(self).pending().skip(1)
            }),
    ;
}

/// An in-memory line source: yields a fixed script of lines in order,
/// then reports end-of-stream.
pub struct VecSource {
    lines: Vec<String>,
    cursor: usize,
}

impl VecSource {
    /// A source that will yield exactly `lines`, in order.
    pub fn new(lines: Vec<String>) -> (r: VecSource)
        ensures
            r.pending() == lines.deep_view(),
    {
        let r = VecSource { lines, cursor: 0 };
        proof {
            assert(r.pending() =~= r.lines.deep_view());
        }
        r
    }
}

impl LineSource for VecSource {
    closed spec fn pending(&self) -> Seq<Seq<char>> {
        if self.cursor <= self.lines.len() {
            self.lines@.map(|i: int, s: String| s@).skip(self.cursor as int)
        } else {
            Seq::empty()
        }
    }

    fn read_line(&mut self) -> (r: Result<String, TransportFault>) {
        if self.cursor < self.lines.len() {
            let line: String = self.lines[self.cursor].clone();
            self.cursor = self.cursor + 1;
            proof {
                assert(final(self).pending() =~= old(self).pending().skip(1));
                assert(line@ == old(self).pending()[0]);
            }
            Ok(line)
        } else {
            Err(TransportFault::EndOfStream)
        }
    }
}

/// A stream of decoded messages over an owned line source.  The stream
/// is open at construction; the first transport fault closes it, and a
/// closed stream keeps answering with that fault without reading.
pub struct MessageStream<S> {
    source: S,
    fault: Option<TransportFault>,
}

impl<S: LineSource> MessageStream<S> {
    /// Whether the stream has closed after a transport fault.
    pub closed spec fn spec_closed(&self) -> bool {
        self.fault is Some
    }

    /// The fault that closed the stream, if any.
    pub closed spec fn spec_fault(&self) -> Option<TransportFault> {
        self.fault
    }

    /// The lines the owned source still holds.
    pub closed spec fn spec_pending(&self) -> Seq<Seq<char>> {
        self.source.pending()
    }

    /// Take ownership of `source` for the stream's lifetime.
    pub fn new(source: S) -> (r: MessageStream<S>)
        ensures
            !r.spec_closed(),
            r.spec_pending() == source.pending(),
    {
        MessageStream { source, fault: None }
    }

    /// Decode the next message.  One line is consumed per call, whether
    /// it decodes or not, so a caller can keep reading past a malformed
    /// line without ever seeing it twice.  A transport fault closes the
    /// stream; after that, every call returns the same fault.
    pub fn read_one(&mut self) -> (r: Result<Message, Error>)
        ensures
            old(self).spec_closed() ==> ({
                &&& *final(self) == *old(self)
                &&& old(self).spec_fault() matches Some(f) && r matches Err(e) && e@
                    == ErrorModel::TransportError(f)
            }),
            !old(self).spec_closed() ==> match r {
                Ok(m) => {
                    &&& old(self).spec_pending().len() > 0
                    &&& Ok::<_, ErrorModel>(m@) == spec_parse_message(old(self).spec_pending()[0])
                    &&& final(self).spec_pending() == old(self).spec_pending().skip(1)
                    &&& !final(self).spec_closed()
                },
                Err(e) => match e@ {
                    ErrorModel::TransportError(f) => {
                        &&& final(self).spec_closed()
                        &&& final(self).spec_fault() == Some(f)
                    },
                    em => {
                        &&& old(self).spec_pending().len() > 0
                        &&& Err::<MessageModel, ErrorModel>(em) == spec_parse_message(
                            old(self).spec_pending()[0],
                        )
                        &&& final(self).spec_pending() == old(self).spec_pending().skip(1)
                        &&& !final(self).spec_closed()
                    },
                },
            },
    {
        match self.fault {
            Some(f) => Err(Error::TransportError(f)),
            None => match self.source.read_line() {
                Err(f) => {
                    self.fault = Some(f);
                    Err(Error::TransportError(f))
                },
                Ok(line) => {
                    let r = parse_message(line.as_str());
                    proof {
                        lemma_decode_error_kind(line@);
                    }
                    r
                },
            },
        }
    }
}

/// A failed decode of a line is never classified as a transport fault.
proof fn lemma_decode_error_kind(raw: Seq<char>)
    ensures
        spec_parse_message(raw) matches Err(e) ==> !(e is TransportError),
{
}

} // verus!

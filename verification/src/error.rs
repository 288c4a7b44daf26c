//! What can go wrong on a connection.

use vstd::prelude::*;

verus! {

/// The failures that the pipeline tells apart.
#[derive(Clone, Copy, Debug, PartialEq, Eq, Structural)]
pub enum Error {
    /// An inbound frame was not a text frame, or did not decode as a submission.
    ConnectionProtocolError,
    /// A submission named a conversation that storage does not hold.
    ConversationNotFound,
    /// The inference server could not be reached.
    UpstreamError,
    /// One chunk of a streamed answer did not decode.
    ChunkDecodeError,
    /// Storage failed.
    StorageError,
    /// The client is gone: a frame could not be written, or the sender has stopped.
    OutboundWriteError,
    /// A worker was told of an outcome that answers no request of its own.
    OutOfTurn,
}

impl Error {
    /// The text that stands for the error where only a text can be passed on.
    pub open spec fn text(self) -> Seq<char> {
        match self {
            Error::ConnectionProtocolError => "protocol error"@,
            Error::ConversationNotFound => "conversation not found"@,
            Error::UpstreamError => "reqwest error"@,
            Error::ChunkDecodeError => "chunk decode error"@,
            Error::StorageError => "db error"@,
            Error::OutboundWriteError => "send error"@,
            Error::OutOfTurn => "out of turn"@,
        }
    }

    pub fn message(&self) -> (r: String)
        ensures
            r@ == self.text(),
    {
        match self {
            Error::ConnectionProtocolError => "protocol error".to_owned(),
            Error::ConversationNotFound => "conversation not found".to_owned(),
            Error::UpstreamError => "reqwest error".to_owned(),
            Error::ChunkDecodeError => "chunk decode error".to_owned(),
            Error::StorageError => "db error".to_owned(),
            Error::OutboundWriteError => "send error".to_owned(),
            Error::OutOfTurn => "out of turn".to_owned(),
        }
    }
}

} // verus!

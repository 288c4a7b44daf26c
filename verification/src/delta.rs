//! What the client is told while a turn runs.

use crate::models::{Message, MessageView};
use vstd::prelude::*;

verus! {

/// One update for the client. `Append` brings a message that the client has not seen.
/// `Replace` brings the whole content so far of a message that grows, so a client
/// that gets one twice, or misses one, still ends with the right text.
#[derive(Debug, PartialEq, Eq)]
pub enum Delta {
    Append { message: Message },
    Replace { message: Message },
}

pub ghost enum DeltaView {
    Append { message: MessageView },
    Replace { message: MessageView },
}

impl View for Delta {
    type V = DeltaView;

    open spec fn view(&self) -> DeltaView {
        match self {
            Delta::Append { message } => DeltaView::Append { message: message@ },
            Delta::Replace { message } => DeltaView::Replace { message: message@ },
        }
    }
}

impl Clone for Delta {
    fn clone(&self) -> (r: Self)
        ensures
            r@ == self@,
    {
        match self {
            Delta::Append { message } => Delta::Append { message: message.clone() },
            Delta::Replace { message } => Delta::Replace { message: message.clone() },
        }
    }
}

impl DeltaView {
    /// The tag of the outbound frame that carries the delta.
    pub open spec fn kind(self) -> Seq<char> {
        match self {
            DeltaView::Append { .. } => "append"@,
            DeltaView::Replace { .. } => "replace"@,
        }
    }

    pub open spec fn message(self) -> MessageView {
        match self {
            DeltaView::Append { message } => message,
            DeltaView::Replace { message } => message,
        }
    }
}

impl Delta {
    /// The tag of the outbound frame that carries the delta.
    pub fn kind(&self) -> (r: &'static str)
        ensures
            r@ == self@.kind(),
    {
        match self {
            Delta::Append { .. } => "append",
            Delta::Replace { .. } => "replace",
        }
    }

    /// The message that the delta carries.
    pub fn message(&self) -> (r: &Message)
        ensures
            r@ == self@.message(),
    {
        match self {
            Delta::Append { message } => message,
            Delta::Replace { message } => message,
        }
    }

    /// The delta taken apart: its tag and its message.
    pub fn into_frame(self) -> (r: (&'static str, Message))
        ensures
            r.0@ == self@.kind(),
            r.1@ == self@.message(),
    {
        match self {
            Delta::Append { message } => ("append", message),
            Delta::Replace { message } => ("replace", message),
        }
    }
}

} // verus!

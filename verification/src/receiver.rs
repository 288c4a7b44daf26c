//! The receiver worker: from inbound frames to submissions on the submission queue.

use crate::error::Error;
use crate::ident::uuid_of;
use crate::models::{PromptSubmission, PromptSubmissionView};
use vstd::prelude::*;

verus! {

/// What was read from the inbound half of the connection.
#[derive(Debug, PartialEq, Eq)]
pub enum Inbound {
    /// A text frame that holds a prompt and names a conversation.
    Prompt { content: String, conversation_id: String },
    /// A text frame that holds anything else.
    Malformed,
    /// A frame that is not a text frame.
    Foreign,
    /// The client has closed the connection.
    Closed,
    /// The connection broke.
    Broken,
}

pub ghost enum InboundView {
    Prompt { content: Seq<char>, conversation_id: Seq<char> },
    Malformed,
    Foreign,
    Closed,
    Broken,
}

impl View for Inbound {
    type V = InboundView;

    open spec fn view(&self) -> InboundView {
        match self {
            Inbound::Prompt { content, conversation_id } => InboundView::Prompt {
                content: content@,
                conversation_id: conversation_id@,
            },
            Inbound::Malformed => InboundView::Malformed,
            Inbound::Foreign => InboundView::Foreign,
            Inbound::Closed => InboundView::Closed,
            Inbound::Broken => InboundView::Broken,
        }
    }
}

/// Where the receiver stands.
#[derive(Clone, Copy, Debug, PartialEq, Eq, Structural)]
pub enum ReceiverState {
    /// A frame is awaited.
    Reading,
    /// A submission waits for room on the submission queue.
    Forwarding,
    /// The worker has returned.
    Exited,
}

/// How the last request went.
#[derive(Debug, PartialEq, Eq)]
pub enum ReceiverEvent {
    /// The inbound half gave this.
    Read(Inbound),
    /// The submission queue took the submission.
    Queued,
    /// The submission queue is closed: nobody takes submissions any more.
    QueueClosed,
}

pub ghost enum ReceiverEventView {
    Read(InboundView),
    Queued,
    QueueClosed,
}

impl View for ReceiverEvent {
    type V = ReceiverEventView;

    open spec fn view(&self) -> ReceiverEventView {
        match self {
            ReceiverEvent::Read(inbound) => ReceiverEventView::Read(inbound@),
            ReceiverEvent::Queued => ReceiverEventView::Queued,
            ReceiverEvent::QueueClosed => ReceiverEventView::QueueClosed,
        }
    }
}

/// What the receiver asks for next.
#[derive(Debug, PartialEq, Eq)]
pub enum ReceiverAction {
    /// Read the next frame.
    Read,
    /// Put this submission on the submission queue, and wait while the queue is full.
    Enqueue(PromptSubmission),
    /// Return: without an error, or with the one that ends the session.
    Exit(Option<Error>),
}

pub ghost enum ReceiverActionView {
    Read,
    Enqueue(PromptSubmissionView),
    Exit(Option<Error>),
}

impl View for ReceiverAction {
    type V = ReceiverActionView;

    open spec fn view(&self) -> ReceiverActionView {
        match self {
            ReceiverAction::Read => ReceiverActionView::Read,
            ReceiverAction::Enqueue(submission) => ReceiverActionView::Enqueue(submission@),
            ReceiverAction::Exit(error) => ReceiverActionView::Exit(*error),
        }
    }
}

/// What the receiver makes of a frame, given the identifier that the frame's
/// conversation text writes down, if the frame has one and it writes one down.
pub open spec fn on_inbound(inbound: InboundView, id: Option<u128>) -> (
    ReceiverState,
    ReceiverActionView,
) {
    match inbound {
        InboundView::Prompt { content, conversation_id } => match id {
            Some(id) => (
                ReceiverState::Forwarding,
                ReceiverActionView::Enqueue(
                    PromptSubmissionView { content, conversation_id: id },
                ),
            ),
            None => (
                ReceiverState::Exited,
                ReceiverActionView::Exit(Some(Error::ConnectionProtocolError)),
            ),
        },
        InboundView::Closed => (ReceiverState::Exited, ReceiverActionView::Exit(None)),
        _ => (
            ReceiverState::Exited,
            ReceiverActionView::Exit(Some(Error::ConnectionProtocolError)),
        ),
    }
}

/// The identifier that a frame names, if it names one.
pub open spec fn named_id(inbound: InboundView) -> Option<u128> {
    match inbound {
        InboundView::Prompt { conversation_id, .. } => uuid_of(conversation_id),
        _ => None,
    }
}

/// The receiver, step by step. A frame that is no submission ends the worker with an
/// error, and a closed connection ends it without one. When the submission queue is
/// closed the session is already ending, and the worker returns without an error.
pub open spec fn spec_step(state: ReceiverState, event: ReceiverEventView) -> (
    ReceiverState,
    ReceiverActionView,
) {
    match state {
        ReceiverState::Reading => match event {
            ReceiverEventView::Read(inbound) => on_inbound(inbound, named_id(inbound)),
            _ => (ReceiverState::Exited, ReceiverActionView::Exit(Some(Error::OutOfTurn))),
        },
        ReceiverState::Forwarding => match event {
            ReceiverEventView::Queued => (ReceiverState::Reading, ReceiverActionView::Read),
            ReceiverEventView::QueueClosed => (
                ReceiverState::Exited,
                ReceiverActionView::Exit(None),
            ),
            _ => (ReceiverState::Exited, ReceiverActionView::Exit(Some(Error::OutOfTurn))),
        },
        ReceiverState::Exited => (ReceiverState::Exited, ReceiverActionView::Exit(None)),
    }
}

impl Inbound {
    /// What the receiver makes of the frame.
    pub fn receive(self) -> (r: (ReceiverState, ReceiverAction))
        ensures
            (r.0, r.1@) == on_inbound(self@, named_id(self@)),
    {
        match self {
            Inbound::Prompt { content, conversation_id } => {
                match PromptSubmission::parse(content, conversation_id.as_str()) {
                    Ok(submission) => (
                        ReceiverState::Forwarding,
                        ReceiverAction::Enqueue(submission),
                    ),
                    Err(error) => (ReceiverState::Exited, ReceiverAction::Exit(Some(error))),
                }
            },
            Inbound::Closed => (ReceiverState::Exited, ReceiverAction::Exit(None)),
            _ => (
                ReceiverState::Exited,
                ReceiverAction::Exit(Some(Error::ConnectionProtocolError)),
            ),
        }
    }
}

impl ReceiverState {
    /// One step of the receiver.
    pub fn step(self, event: ReceiverEvent) -> (r: (ReceiverState, ReceiverAction))
        ensures
            (r.0, r.1@) == spec_step(self, event@),
    {
        match self {
            ReceiverState::Reading => match event {
                ReceiverEvent::Read(inbound) => inbound.receive(),
                _ => (ReceiverState::Exited, ReceiverAction::Exit(Some(Error::OutOfTurn))),
            },
            ReceiverState::Forwarding => match event {
                ReceiverEvent::Queued => (ReceiverState::Reading, ReceiverAction::Read),
                ReceiverEvent::QueueClosed => (
                    ReceiverState::Exited,
                    ReceiverAction::Exit(None),
                ),
                _ => (ReceiverState::Exited, ReceiverAction::Exit(Some(Error::OutOfTurn))),
            },
            ReceiverState::Exited => (ReceiverState::Exited, ReceiverAction::Exit(None)),
        }
    }
}

} // verus!

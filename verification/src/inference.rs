//! The inference worker: what happens to one submission, from the look-up of its
//! conversation to the storing of the reply.
//!
//! The worker asks for one thing at a time (a [`TurnAction`]) and is told how it went
//! (a [`TurnEvent`]). The prompt is stored before the inference server is called, so
//! it survives a failed call. The reply is stored when the stream has stopped, however
//! it stopped, with all that had arrived by then. A chunk that does not decode is
//! passed over. A turn that cannot go on (the conversation is unknown, storage fails
//! before the call, the inference server cannot be reached, the client is gone before
//! the call) ends the worker, and the gateway then ends the session.

use crate::delta::{Delta, DeltaView};
use crate::error::Error;
use crate::models::{
    message_views, Conversation, ConversationView, Message, MessageView, PromptSubmission,
    PromptSubmissionView,
};
use crate::ollama::{
    chat_request, OllamaChatParams, OllamaChatParamsView, OllamaChatResponseStream,
    OllamaChatResponseStreamView,
};
use crate::role::Role;
use crate::stamp::{is_random_id, Stamp};
use crate::text::{strip_leading, trimmed};
use vstd::prelude::*;

verus! {

/// Where the worker stands.
#[derive(Debug, PartialEq, Eq)]
pub enum TurnState {
    /// Between turns: waiting for a submission.
    Idle,
    /// Storage was asked for the conversation.
    Resolving { submission: PromptSubmission },
    /// Storage was asked for the messages of the conversation.
    Loading { submission: PromptSubmission, conversation_id: u128 },
    /// Storage was asked to keep the prompt.
    SavingPrompt { prompt: Message, history: Vec<Message>, conversation_id: u128 },
    /// The prompt is on its way to the client.
    Echoing { prompt: Message, history: Vec<Message>, conversation_id: u128 },
    /// The inference server was called.
    Dialing { conversation_id: u128 },
    /// The next chunk of the answer is awaited. `first` holds until a chunk has been
    /// taken in.
    Streaming { reply: Message, first: bool },
    /// The reply so far is on its way to the client. `last` holds if the chunk that
    /// was taken in closed the answer.
    Relaying { reply: Message, last: bool },
    /// Storage was asked to keep the reply.
    SavingReply,
    /// The worker has returned.
    Exited,
}

pub ghost enum TurnStateView {
    Idle,
    Resolving { submission: PromptSubmissionView },
    Loading { submission: PromptSubmissionView, conversation_id: u128 },
    SavingPrompt { prompt: MessageView, history: Seq<MessageView>, conversation_id: u128 },
    Echoing { prompt: MessageView, history: Seq<MessageView>, conversation_id: u128 },
    Dialing { conversation_id: u128 },
    Streaming { reply: MessageView, first: bool },
    Relaying { reply: MessageView, last: bool },
    SavingReply,
    Exited,
}

impl View for TurnState {
    type V = TurnStateView;

    open spec fn view(&self) -> TurnStateView {
        match self {
            TurnState::Idle => TurnStateView::Idle,
            TurnState::Resolving { submission } => TurnStateView::Resolving {
                submission: submission@,
            },
            TurnState::Loading { submission, conversation_id } => TurnStateView::Loading {
                submission: submission@,
                conversation_id: *conversation_id,
            },
            TurnState::SavingPrompt { prompt, history, conversation_id } => {
                TurnStateView::SavingPrompt {
                    prompt: prompt@,
                    history: message_views(history@),
                    conversation_id: *conversation_id,
                }
            },
            TurnState::Echoing { prompt, history, conversation_id } => TurnStateView::Echoing {
                prompt: prompt@,
                history: message_views(history@),
                conversation_id: *conversation_id,
            },
            TurnState::Dialing { conversation_id } => TurnStateView::Dialing {
                conversation_id: *conversation_id,
            },
            TurnState::Streaming { reply, first } => TurnStateView::Streaming {
                reply: reply@,
                first: *first,
            },
            TurnState::Relaying { reply, last } => TurnStateView::Relaying {
                reply: reply@,
                last: *last,
            },
            TurnState::SavingReply => TurnStateView::SavingReply,
            TurnState::Exited => TurnStateView::Exited,
        }
    }
}

/// How the last request went.
#[derive(Debug, PartialEq, Eq)]
pub enum TurnEvent {
    /// The submission queue gave a submission.
    Submitted(PromptSubmission),
    /// The submission queue is closed and empty.
    QueueClosed,
    /// Storage holds the conversation.
    Found(Conversation),
    /// Storage holds no such conversation.
    Missing,
    /// The messages of the conversation, oldest first.
    History(Vec<Message>),
    /// Storage kept the message.
    Stored,
    /// Storage failed.
    StorageFailed,
    /// The delta queue took the delta.
    Pushed,
    /// The delta queue is closed: nobody sends to the client any more.
    PushRefused,
    /// The inference server answers.
    ChatOpened,
    /// The inference server could not be reached.
    ChatFailed,
    /// A chunk of the answer.
    Chunk(OllamaChatResponseStream),
    /// A chunk that did not decode.
    Garbled,
    /// The answer has ended, or the connection that carried it has.
    StreamEnded,
}

pub ghost enum TurnEventView {
    Submitted(PromptSubmissionView),
    QueueClosed,
    Found(ConversationView),
    Missing,
    History(Seq<MessageView>),
    Stored,
    StorageFailed,
    Pushed,
    PushRefused,
    ChatOpened,
    ChatFailed,
    Chunk(OllamaChatResponseStreamView),
    Garbled,
    StreamEnded,
}

impl View for TurnEvent {
    type V = TurnEventView;

    open spec fn view(&self) -> TurnEventView {
        match self {
            TurnEvent::Submitted(submission) => TurnEventView::Submitted(submission@),
            TurnEvent::QueueClosed => TurnEventView::QueueClosed,
            TurnEvent::Found(conversation) => TurnEventView::Found(conversation@),
            TurnEvent::Missing => TurnEventView::Missing,
            TurnEvent::History(messages) => TurnEventView::History(message_views(messages@)),
            TurnEvent::Stored => TurnEventView::Stored,
            TurnEvent::StorageFailed => TurnEventView::StorageFailed,
            TurnEvent::Pushed => TurnEventView::Pushed,
            TurnEvent::PushRefused => TurnEventView::PushRefused,
            TurnEvent::ChatOpened => TurnEventView::ChatOpened,
            TurnEvent::ChatFailed => TurnEventView::ChatFailed,
            TurnEvent::Chunk(chunk) => TurnEventView::Chunk(chunk@),
            TurnEvent::Garbled => TurnEventView::Garbled,
            TurnEvent::StreamEnded => TurnEventView::StreamEnded,
        }
    }
}

impl TurnEventView {
    /// The failure that an event tells of, if it tells of one.
    pub open spec fn failure(self) -> Option<Error> {
        match self {
            TurnEventView::Missing => Some(Error::ConversationNotFound),
            TurnEventView::StorageFailed => Some(Error::StorageError),
            TurnEventView::PushRefused => Some(Error::OutboundWriteError),
            TurnEventView::ChatFailed => Some(Error::UpstreamError),
            TurnEventView::Garbled => Some(Error::ChunkDecodeError),
            _ => None,
        }
    }
}

impl TurnEvent {
    /// The failure that the event tells of, if it tells of one. Not every failure
    /// ends the turn: see [`spec_step`].
    pub fn failure(&self) -> (r: Option<Error>)
        ensures
            r == self@.failure(),
    {
        match self {
            TurnEvent::Missing => Some(Error::ConversationNotFound),
            TurnEvent::StorageFailed => Some(Error::StorageError),
            TurnEvent::PushRefused => Some(Error::OutboundWriteError),
            TurnEvent::ChatFailed => Some(Error::UpstreamError),
            TurnEvent::Garbled => Some(Error::ChunkDecodeError),
            _ => None,
        }
    }
}

/// What the worker asks for next.
#[derive(Debug, PartialEq, Eq)]
pub enum TurnAction {
    /// Take the next submission from the submission queue.
    Await,
    /// Ask storage for the conversation with this identifier.
    Find(u128),
    /// Ask storage for the messages of the conversation with this identifier.
    Load(u128),
    /// Ask storage to keep this message.
    Store(Message),
    /// Put this delta on the delta queue.
    Push(Delta),
    /// Call the inference server with this request.
    Open(OllamaChatParams),
    /// Read the next chunk of the answer.
    Pull,
    /// Return: without an error, or with the one that ended the turn.
    Exit(Option<Error>),
}

pub ghost enum TurnActionView {
    Await,
    Find(u128),
    Load(u128),
    Store(MessageView),
    Push(DeltaView),
    Open(OllamaChatParamsView),
    Pull,
    Exit(Option<Error>),
}

impl View for TurnAction {
    type V = TurnActionView;

    open spec fn view(&self) -> TurnActionView {
        match self {
            TurnAction::Await => TurnActionView::Await,
            TurnAction::Find(id) => TurnActionView::Find(*id),
            TurnAction::Load(id) => TurnActionView::Load(*id),
            TurnAction::Store(message) => TurnActionView::Store(message@),
            TurnAction::Push(delta) => TurnActionView::Push(delta@),
            TurnAction::Open(params) => TurnActionView::Open(params@),
            TurnAction::Pull => TurnActionView::Pull,
            TurnAction::Exit(error) => TurnActionView::Exit(*error),
        }
    }
}

/// The worker gives up the turn and returns with `error`.
pub open spec fn fail(error: Error) -> (TurnStateView, TurnActionView) {
    (TurnStateView::Exited, TurnActionView::Exit(Some(error)))
}

/// The prompt of a submission as a message of the user.
pub open spec fn prompt_of(submission: PromptSubmissionView, stamp: Stamp) -> MessageView {
    MessageView {
        id: stamp.id,
        role: Role::User,
        content: submission.content,
        conversation_id: submission.conversation_id,
        created_at: stamp.at,
    }
}

/// The reply before anything has arrived.
pub open spec fn empty_reply(conversation_id: u128, stamp: Stamp) -> MessageView {
    MessageView {
        id: stamp.id,
        role: Role::Assistant,
        content: Seq::<char>::empty(),
        conversation_id,
        created_at: stamp.at,
    }
}

/// What a chunk adds to the reply: its fragment, without leading whitespace if it is
/// the first chunk that was taken in.
pub open spec fn piece(fragment: Seq<char>, first: bool) -> Seq<char> {
    if first {
        trimmed(fragment)
    } else {
        fragment
    }
}

/// `message` with `more` at the end of its content.
pub open spec fn extended(message: MessageView, more: Seq<char>) -> MessageView {
    MessageView { content: message.content + more, ..message }
}

/// Whether this step makes a new message, which takes a stamp.
pub open spec fn mints(state: TurnStateView, event: TurnEventView) -> bool {
    ||| state is Loading && event is History
    ||| state is Dialing && event is ChatOpened
}

/// The worker, step by step: where it goes from `state` when `event` comes in, and
/// what it asks for next. `model` is the model that requests name, and `stamp` goes
/// to the message that the step makes, if it makes one.
pub open spec fn spec_step(
    state: TurnStateView,
    event: TurnEventView,
    model: Seq<char>,
    stamp: Stamp,
) -> (TurnStateView, TurnActionView) {
    match state {
        TurnStateView::Idle => match event {
            TurnEventView::Submitted(submission) => (
                TurnStateView::Resolving { submission },
                TurnActionView::Find(submission.conversation_id),
            ),
            TurnEventView::QueueClosed => (TurnStateView::Exited, TurnActionView::Exit(None)),
            _ => fail(Error::OutOfTurn),
        },
        TurnStateView::Resolving { submission } => match event {
            TurnEventView::Found(conversation) => (
                TurnStateView::Loading { submission, conversation_id: conversation.id },
                TurnActionView::Load(conversation.id),
            ),
            TurnEventView::Missing => fail(Error::ConversationNotFound),
            TurnEventView::StorageFailed => fail(Error::StorageError),
            _ => fail(Error::OutOfTurn),
        },
        TurnStateView::Loading { submission, conversation_id } => match event {
            TurnEventView::History(history) => (
                TurnStateView::SavingPrompt {
                    prompt: prompt_of(submission, stamp),
                    history,
                    conversation_id,
                },
                TurnActionView::Store(prompt_of(submission, stamp)),
            ),
            TurnEventView::StorageFailed => fail(Error::StorageError),
            _ => fail(Error::OutOfTurn),
        },
        TurnStateView::SavingPrompt { prompt, history, conversation_id } => match event {
            TurnEventView::Stored => (
                TurnStateView::Echoing { prompt, history, conversation_id },
                TurnActionView::Push(DeltaView::Append { message: prompt }),
            ),
            TurnEventView::StorageFailed => fail(Error::StorageError),
            _ => fail(Error::OutOfTurn),
        },
        TurnStateView::Echoing { prompt, history, conversation_id } => match event {
            TurnEventView::Pushed => (
                TurnStateView::Dialing { conversation_id },
                TurnActionView::Open(chat_request(model, history.push(prompt), true)),
            ),
            TurnEventView::PushRefused => fail(Error::OutboundWriteError),
            _ => fail(Error::OutOfTurn),
        },
        TurnStateView::Dialing { conversation_id } => match event {
            TurnEventView::ChatOpened => (
                TurnStateView::Streaming {
                    reply: empty_reply(conversation_id, stamp),
                    first: true,
                },
                TurnActionView::Pull,
            ),
            TurnEventView::ChatFailed => fail(Error::UpstreamError),
            _ => fail(Error::OutOfTurn),
        },
        TurnStateView::Streaming { reply, first } => match event {
            TurnEventView::Chunk(chunk) => (
                TurnStateView::Relaying {
                    reply: extended(reply, piece(chunk.message.content, first)),
                    last: chunk.done,
                },
                TurnActionView::Push(
                    DeltaView::Replace {
                        message: extended(reply, piece(chunk.message.content, first)),
                    },
                ),
            ),
            TurnEventView::Garbled => (
                TurnStateView::Streaming { reply, first },
                TurnActionView::Pull,
            ),
            TurnEventView::StreamEnded => (
                TurnStateView::SavingReply,
                TurnActionView::Store(reply),
            ),
            _ => fail(Error::OutOfTurn),
        },
        TurnStateView::Relaying { reply, last } => match event {
            TurnEventView::Pushed => if last {
                (TurnStateView::SavingReply, TurnActionView::Store(reply))
            } else {
                (TurnStateView::Streaming { reply, first: false }, TurnActionView::Pull)
            },
            TurnEventView::PushRefused => (
                TurnStateView::SavingReply,
                TurnActionView::Store(reply),
            ),
            _ => fail(Error::OutOfTurn),
        },
        TurnStateView::SavingReply => match event {
            TurnEventView::Stored => (TurnStateView::Idle, TurnActionView::Await),
            TurnEventView::StorageFailed => (TurnStateView::Idle, TurnActionView::Await),
            _ => fail(Error::OutOfTurn),
        },
        TurnStateView::Exited => (TurnStateView::Exited, TurnActionView::Exit(None)),
    }
}

/// A step that makes no message does not look at the stamp.
pub proof fn lemma_stamp_unused(
    state: TurnStateView,
    event: TurnEventView,
    model: Seq<char>,
    a: Stamp,
    b: Stamp,
)
    requires
        !mints(state, event),
    ensures
        spec_step(state, event, model, a) == spec_step(state, event, model, b),
{
}

fn give_up(error: Error) -> (r: (TurnState, TurnAction))
    ensures
        (r.0@, r.1@) == fail(error),
{
    (TurnState::Exited, TurnAction::Exit(Some(error)))
}

impl TurnState {
    /// Whether the step from here on `event` makes a message.
    pub fn mints(&self, event: &TurnEvent) -> (r: bool)
        ensures
            r == mints(self@, event@),
    {
        match (self, event) {
            (TurnState::Loading { .. }, TurnEvent::History(_)) => true,
            (TurnState::Dialing { .. }, TurnEvent::ChatOpened) => true,
            _ => false,
        }
    }

    /// One step of the worker, with the stamp for the message that the step may make.
    pub fn step_with(self, event: TurnEvent, model: &str, stamp: Stamp) -> (r: (
        TurnState,
        TurnAction,
    ))
        ensures
            (r.0@, r.1@) == spec_step(self@, event@, model@, stamp),
    {
        match self {
            TurnState::Idle => match event {
                TurnEvent::Submitted(submission) => {
                    let id: u128 = submission.conversation_id;
                    (TurnState::Resolving { submission }, TurnAction::Find(id))
                },
                TurnEvent::QueueClosed => (TurnState::Exited, TurnAction::Exit(None)),
                _ => give_up(Error::OutOfTurn),
            },
            TurnState::Resolving { submission } => match event {
                TurnEvent::Found(conversation) => (
                    TurnState::Loading { submission, conversation_id: conversation.id },
                    TurnAction::Load(conversation.id),
                ),
                TurnEvent::Missing => give_up(Error::ConversationNotFound),
                TurnEvent::StorageFailed => give_up(Error::StorageError),
                _ => give_up(Error::OutOfTurn),
            },
            TurnState::Loading { submission, conversation_id } => match event {
                TurnEvent::History(history) => {
                    let prompt = Message::stamped(
                        stamp,
                        Role::User,
                        submission.content,
                        submission.conversation_id,
                    );
                    let copy = prompt.clone();
                    (
                        TurnState::SavingPrompt { prompt, history, conversation_id },
                        TurnAction::Store(copy),
                    )
                },
                TurnEvent::StorageFailed => give_up(Error::StorageError),
                _ => give_up(Error::OutOfTurn),
            },
            TurnState::SavingPrompt { prompt, history, conversation_id } => match event {
                TurnEvent::Stored => {
                    let copy = prompt.clone();
                    (
                        TurnState::Echoing { prompt, history, conversation_id },
                        TurnAction::Push(Delta::Append { message: copy }),
                    )
                },
                TurnEvent::StorageFailed => give_up(Error::StorageError),
                _ => give_up(Error::OutOfTurn),
            },
            TurnState::Echoing { prompt, history, conversation_id } => match event {
                TurnEvent::Pushed => {
                    let mut messages = history;
                    proof {
                        assert(message_views(messages@.push(prompt)) =~= message_views(
                            messages@,
                        ).push(prompt@));
                    }
                    messages.push(prompt);
                    let params = OllamaChatParams::for_messages(
                        model.to_owned(),
                        &messages,
                        true,
                    );
                    (TurnState::Dialing { conversation_id }, TurnAction::Open(params))
                },
                TurnEvent::PushRefused => give_up(Error::OutboundWriteError),
                _ => give_up(Error::OutOfTurn),
            },
            TurnState::Dialing { conversation_id } => match event {
                TurnEvent::ChatOpened => {
                    let reply = Message::stamped(
                        stamp,
                        Role::Assistant,
                        String::new(),
                        conversation_id,
                    );
                    (TurnState::Streaming { reply, first: true }, TurnAction::Pull)
                },
                TurnEvent::ChatFailed => give_up(Error::UpstreamError),
                _ => give_up(Error::OutOfTurn),
            },
            TurnState::Streaming { reply, first } => match event {
                TurnEvent::Chunk(chunk) => {
                    let mut reply = reply;
                    if first {
                        reply.update_content(strip_leading(chunk.message.content.as_str()));
                    } else {
                        reply.update_content(chunk.message.content.as_str());
                    }
                    let copy = reply.clone();
                    (
                        TurnState::Relaying { reply, last: chunk.done },
                        TurnAction::Push(Delta::Replace { message: copy }),
                    )
                },
                TurnEvent::Garbled => (TurnState::Streaming { reply, first }, TurnAction::Pull),
                TurnEvent::StreamEnded => (TurnState::SavingReply, TurnAction::Store(reply)),
                _ => give_up(Error::OutOfTurn),
            },
            TurnState::Relaying { reply, last } => match event {
                TurnEvent::Pushed => {
                    if last {
                        (TurnState::SavingReply, TurnAction::Store(reply))
                    } else {
                        (TurnState::Streaming { reply, first: false }, TurnAction::Pull)
                    }
                },
                TurnEvent::PushRefused => (TurnState::SavingReply, TurnAction::Store(reply)),
                _ => give_up(Error::OutOfTurn),
            },
            TurnState::SavingReply => match event {
                TurnEvent::Stored => (TurnState::Idle, TurnAction::Await),
                TurnEvent::StorageFailed => (TurnState::Idle, TurnAction::Await),
                _ => give_up(Error::OutOfTurn),
            },
            TurnState::Exited => (TurnState::Exited, TurnAction::Exit(None)),
        }
    }

    /// One step of the worker. A message that the step makes gets a fresh random
    /// identifier and the time of the call.
    pub fn step(self, event: TurnEvent, model: &str) -> (r: (TurnState, TurnAction))
        ensures
            exists|stamp: Stamp|
                (mints(self@, event@) ==> is_random_id(stamp.id)) && (r.0@, r.1@) == spec_step(
                    self@,
                    event@,
                    model@,
                    stamp,
                ),
    {
        let stamp = if self.mints(&event) {
            Stamp::fresh()
        } else {
            Stamp { id: 0, at: 0 }
        };
        self.step_with(event, model, stamp)
    }
}

} // verus!

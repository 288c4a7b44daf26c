//! Conversations, their messages, and what a client submits.

use crate::error::Error;
use crate::ident::{parse_id, uuid_of};
use crate::role::Role;
use crate::stamp::{is_random_id, Stamp};
use vstd::prelude::*;

verus! {

/// One message of a conversation.
#[derive(Debug, PartialEq, Eq)]
pub struct Message {
    pub id: u128,
    pub role: Role,
    pub content: String,
    pub conversation_id: u128,
    /// Milliseconds since the Unix epoch.
    pub created_at: i64,
}

/// A message as a mathematical value.
pub ghost struct MessageView {
    pub id: u128,
    pub role: Role,
    pub content: Seq<char>,
    pub conversation_id: u128,
    pub created_at: i64,
}

impl View for Message {
    type V = MessageView;

    open spec fn view(&self) -> MessageView {
        MessageView {
            id: self.id,
            role: self.role,
            content: self.content@,
            conversation_id: self.conversation_id,
            created_at: self.created_at,
        }
    }
}

impl Clone for Message {
    fn clone(&self) -> (r: Self)
        ensures
            r@ == self@,
    {
        Message {
            id: self.id,
            role: self.role,
            content: self.content.clone(),
            conversation_id: self.conversation_id,
            created_at: self.created_at,
        }
    }
}

impl Message {
    /// The message with the given stamp.
    pub fn stamped(stamp: Stamp, role: Role, content: String, conversation_id: u128) -> (r: Self)
        ensures
            r@ == (MessageView {
                id: stamp.id,
                role,
                content: content@,
                conversation_id,
                created_at: stamp.at,
            }),
    {
        Message { id: stamp.id, role, content, conversation_id, created_at: stamp.at }
    }

    /// A new message: a fresh random identifier, created now.
    fn new(role: Role, content: String, conversation_id: u128) -> (r: Self)
        ensures
            is_random_id(r@.id),
            r@.role == role,
            r@.content == content@,
            r@.conversation_id == conversation_id,
    {
        Message::stamped(Stamp::fresh(), role, content, conversation_id)
    }

    /// A new message of the user.
    pub fn user(content: String, conversation_id: u128) -> (r: Self)
        ensures
            is_random_id(r@.id),
            r@.role == Role::User,
            r@.content == content@,
            r@.conversation_id == conversation_id,
    {
        Message::new(Role::User, content, conversation_id)
    }

    /// A new message of the assistant.
    pub fn assistant(content: String, conversation_id: u128) -> (r: Self)
        ensures
            is_random_id(r@.id),
            r@.role == Role::Assistant,
            r@.content == content@,
            r@.conversation_id == conversation_id,
    {
        Message::new(Role::Assistant, content, conversation_id)
    }

    /// Appends `update` to the content and leaves the rest as it is.
    pub fn update_content(&mut self, update: &str)
        ensures
            final(self)@ == (MessageView {
                content: old(self)@.content + update@,
                ..old(self)@
            }),
    {
        self.content.append(update);
    }
}

/// The views of a list of messages, in order.
pub open spec fn message_views(messages: Seq<Message>) -> Seq<MessageView> {
    messages.map_values(|m: Message| m@)
}

/// A topic under which messages are kept.
#[derive(Debug, PartialEq, Eq)]
pub struct Conversation {
    pub id: u128,
    pub name: String,
    /// Milliseconds since the Unix epoch.
    pub created_at: i64,
}

/// A conversation as a mathematical value.
pub ghost struct ConversationView {
    pub id: u128,
    pub name: Seq<char>,
    pub created_at: i64,
}

impl View for Conversation {
    type V = ConversationView;

    open spec fn view(&self) -> ConversationView {
        ConversationView { id: self.id, name: self.name@, created_at: self.created_at }
    }
}

impl Clone for Conversation {
    fn clone(&self) -> (r: Self)
        ensures
            r@ == self@,
    {
        Conversation { id: self.id, name: self.name.clone(), created_at: self.created_at }
    }
}

impl Conversation {
    /// The conversation with the given stamp.
    pub fn stamped(stamp: Stamp, name: String) -> (r: Self)
        ensures
            r@ == (ConversationView { id: stamp.id, name: name@, created_at: stamp.at }),
    {
        Conversation { id: stamp.id, name, created_at: stamp.at }
    }

    /// A new conversation: a fresh random identifier, created now.
    pub fn new(name: String) -> (r: Self)
        ensures
            is_random_id(r@.id),
            r@.name == name@,
    {
        Conversation::stamped(Stamp::fresh(), name)
    }
}

/// What a client sends to start a turn: a prompt, and the conversation it belongs to.
#[derive(Debug, PartialEq, Eq)]
pub struct PromptSubmission {
    pub content: String,
    pub conversation_id: u128,
}

/// A submission as a mathematical value.
pub ghost struct PromptSubmissionView {
    pub content: Seq<char>,
    pub conversation_id: u128,
}

impl View for PromptSubmission {
    type V = PromptSubmissionView;

    open spec fn view(&self) -> PromptSubmissionView {
        PromptSubmissionView { content: self.content@, conversation_id: self.conversation_id }
    }
}

impl PromptSubmission {
    /// The submission of `content` to the conversation `id`, if there is an `id`. A
    /// submission without a conversation breaks the protocol.
    pub fn addressed(content: String, id: Option<u128>) -> (r: Result<Self, Error>)
        ensures
            match id {
                Some(conversation_id) => r is Ok && r->Ok_0@ == (PromptSubmissionView {
                    content: content@,
                    conversation_id,
                }),
                None => r == Err::<Self, Error>(Error::ConnectionProtocolError),
            },
    {
        match id {
            Some(conversation_id) => Ok(PromptSubmission { content, conversation_id }),
            None => Err(Error::ConnectionProtocolError),
        }
    }

    /// Reads a submission whose conversation is given as the text of a UUID. A text
    /// that is no UUID breaks the protocol.
    pub fn parse(content: String, conversation_id: &str) -> (r: Result<Self, Error>)
        ensures
            match uuid_of(conversation_id@) {
                Some(id) => r is Ok && r->Ok_0@ == (PromptSubmissionView {
                    content: content@,
                    conversation_id: id,
                }),
                None => r == Err::<Self, Error>(Error::ConnectionProtocolError),
            },
    {
        PromptSubmission::addressed(content, parse_id(conversation_id))
    }
}

impl Clone for PromptSubmission {
    fn clone(&self) -> (r: Self)
        ensures
            r@ == self@,
    {
        PromptSubmission {
            content: self.content.clone(),
            conversation_id: self.conversation_id,
        }
    }
}

} // verus!

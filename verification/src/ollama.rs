//! The shapes that the inference server speaks: what a chat request holds and what
//! comes back, whole or chunk by chunk.

use crate::models::{Message, MessageView};
use crate::role::Role;
use vstd::prelude::*;
use vstd::std_specs::convert::FromSpecImpl;

verus! {

/// The model that a request names when nothing else is configured.
pub open spec fn default_model_name() -> Seq<char> {
    "mistral:7b"@
}

pub fn default_model() -> (r: String)
    ensures
        r@ == default_model_name(),
{
    "mistral:7b".to_owned()
}

/// A message as the inference server sees it: who speaks, and what is said.
#[derive(Debug, PartialEq, Eq)]
pub struct OllamaMessage {
    pub role: Role,
    pub content: String,
}

pub ghost struct OllamaMessageView {
    pub role: Role,
    pub content: Seq<char>,
}

impl View for OllamaMessage {
    type V = OllamaMessageView;

    open spec fn view(&self) -> OllamaMessageView {
        OllamaMessageView { role: self.role, content: self.content@ }
    }
}

impl Clone for OllamaMessage {
    fn clone(&self) -> (r: Self)
        ensures
            r@ == self@,
    {
        OllamaMessage { role: self.role, content: self.content.clone() }
    }
}

/// What the inference server is told of a stored message.
pub open spec fn upstream_form(m: MessageView) -> OllamaMessageView {
    OllamaMessageView { role: m.role, content: m.content }
}

impl From<Message> for OllamaMessage {
    fn from(value: Message) -> (r: Self)
        ensures
            r@ == upstream_form(value@),
    {
        OllamaMessage { role: value.role, content: value.content }
    }
}

impl FromSpecImpl<Message> for OllamaMessage {
    open spec fn obeys_from_spec() -> bool {
        true
    }

    open spec fn from_spec(value: Message) -> Self {
        OllamaMessage { role: value.role, content: value.content }
    }
}

/// The answer to a request that does not stream.
#[derive(Debug, PartialEq, Eq)]
pub struct OllamaChatResponse {
    pub message: OllamaMessage,
}

pub ghost struct OllamaChatResponseView {
    pub message: OllamaMessageView,
}

impl View for OllamaChatResponse {
    type V = OllamaChatResponseView;

    open spec fn view(&self) -> OllamaChatResponseView {
        OllamaChatResponseView { message: self.message@ }
    }
}

impl Clone for OllamaChatResponse {
    fn clone(&self) -> (r: Self)
        ensures
            r@ == self@,
    {
        OllamaChatResponse { message: self.message.clone() }
    }
}

/// One chunk of a streamed answer: a fragment of the reply, and whether it is the last.
#[derive(Debug, PartialEq, Eq)]
pub struct OllamaChatResponseStream {
    pub message: OllamaMessage,
    pub done: bool,
}

pub ghost struct OllamaChatResponseStreamView {
    pub message: OllamaMessageView,
    pub done: bool,
}

impl View for OllamaChatResponseStream {
    type V = OllamaChatResponseStreamView;

    open spec fn view(&self) -> OllamaChatResponseStreamView {
        OllamaChatResponseStreamView { message: self.message@, done: self.done }
    }
}

impl Clone for OllamaChatResponseStream {
    fn clone(&self) -> (r: Self)
        ensures
            r@ == self@,
    {
        OllamaChatResponseStream { message: self.message.clone(), done: self.done }
    }
}

/// A chat request.
#[derive(Debug, PartialEq, Eq)]
pub struct OllamaChatParams {
    pub model: String,
    pub messages: Vec<OllamaMessage>,
    pub stream: bool,
}

pub ghost struct OllamaChatParamsView {
    pub model: Seq<char>,
    pub messages: Seq<OllamaMessageView>,
    pub stream: bool,
}

impl View for OllamaChatParams {
    type V = OllamaChatParamsView;

    open spec fn view(&self) -> OllamaChatParamsView {
        OllamaChatParamsView {
            model: self.model@,
            messages: self.messages@.map_values(|m: OllamaMessage| m@),
            stream: self.stream,
        }
    }
}

/// The request that puts `messages` before `model`, in their order.
pub open spec fn chat_request(
    model: Seq<char>,
    messages: Seq<MessageView>,
    stream: bool,
) -> OllamaChatParamsView {
    OllamaChatParamsView {
        model,
        messages: messages.map_values(|m: MessageView| upstream_form(m)),
        stream,
    }
}

impl OllamaChatParams {
    /// The request that puts every message of `messages` before `model`, in their
    /// order, each with its role and content.
    pub fn for_messages(model: String, messages: &Vec<Message>, stream: bool) -> (r: Self)
        ensures
            r@ == chat_request(model@, crate::models::message_views(messages@), stream),
    {
        let mut out: Vec<OllamaMessage> = Vec::new();
        let mut i: usize = 0;
        while i < messages.len()
            invariant
                i <= messages.len(),
                out.len() == i,
                forall|k: int| 0 <= k < i ==> out[k]@ == upstream_form(#[trigger] messages[k]@),
            decreases messages.len() - i,
        {
            out.push(OllamaMessage::from(messages[i].clone()));
            i += 1;
        }
        let r = OllamaChatParams { model, messages: out, stream };
        assert(r@.messages =~= chat_request(
            model@,
            crate::models::message_views(messages@),
            stream,
        ).messages);
        r
    }
}

} // verus!

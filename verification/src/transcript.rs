//! A conversation as the page shows it: the lines of a dialogue, each said by the
//! human or by the assistant.

use vstd::prelude::*;

verus! {

/// One line of a dialogue.
#[derive(Debug, PartialEq, Eq)]
pub struct Message {
    pub is_human: bool,
    pub text: String,
}

pub ghost struct MessageView {
    pub is_human: bool,
    pub text: Seq<char>,
}

impl View for Message {
    type V = MessageView;

    open spec fn view(&self) -> MessageView {
        MessageView { is_human: self.is_human, text: self.text@ }
    }
}

impl Clone for Message {
    fn clone(&self) -> (r: Self)
        ensures
            r@ == self@,
    {
        Message { is_human: self.is_human, text: self.text.clone() }
    }
}

impl Message {
    fn new(is_human: bool, text: String) -> (r: Self)
        ensures
            r@ == (MessageView { is_human, text: text@ }),
    {
        Message { is_human, text }
    }

    /// A line of the human.
    pub fn human(text: String) -> (r: Self)
        ensures
            r@ == (MessageView { is_human: true, text: text@ }),
    {
        Message::new(true, text)
    }

    /// A line of the assistant.
    pub fn assistant(text: String) -> (r: Self)
        ensures
            r@ == (MessageView { is_human: false, text: text@ }),
    {
        Message::new(false, text)
    }
}

/// The lines of a dialogue, oldest first, and the context that the model gave back
/// with its last answer, if it gave one.
#[derive(Debug, PartialEq, Eq)]
pub struct Conversation {
    messages: Vec<Message>,
    pub(crate) context: Option<Vec<i32>>,
}

pub ghost struct ConversationView {
    pub messages: Seq<MessageView>,
    pub context: Option<Seq<i32>>,
}

impl View for Conversation {
    type V = ConversationView;

    closed spec fn view(&self) -> ConversationView {
        ConversationView {
            messages: self.messages@.map_values(|m: Message| m@),
            context: match self.context {
                Some(context) => Some(context@),
                None => None,
            },
        }
    }
}

/// `messages` with `text` as the text of the last one, if there is a last one.
pub open spec fn with_last_text(messages: Seq<MessageView>, text: Seq<char>) -> Seq<
    MessageView,
> {
    if messages.len() == 0 {
        messages
    } else {
        messages.update(
            messages.len() - 1,
            MessageView { is_human: messages.last().is_human, text },
        )
    }
}

impl Conversation {
    /// A dialogue in which nothing has been said.
    pub fn new() -> (r: Self)
        ensures
            r@ == (ConversationView { messages: Seq::empty(), context: None }),
    {
        let r = Conversation { messages: Vec::new(), context: None };
        assert(r@.messages =~= Seq::empty());
        r
    }

    /// Adds a line at the end.
    pub fn append_message(&mut self, message: Message)
        ensures
            final(self)@ == (ConversationView {
                messages: old(self)@.messages.push(message@),
                ..old(self)@
            }),
    {
        self.messages.push(message);
        assert(final(self)@.messages =~= old(self)@.messages.push(message@));
    }

    /// Puts `new_txt` in place of the text of the last line. A dialogue without lines
    /// stays as it is.
    pub fn modify_last_msg(&mut self, new_txt: String)
        ensures
            final(self)@ == (ConversationView {
                messages: with_last_text(old(self)@.messages, new_txt@),
                ..old(self)@
            }),
    {
        let n: usize = self.messages.len();
        if n > 0 {
            let is_human = self.messages[n - 1].is_human;
            self.messages.set(n - 1, Message { is_human, text: new_txt });
            assert(final(self)@.messages =~= with_last_text(old(self)@.messages, new_txt@));
        }
    }

    /// The number of lines.
    pub fn len(&self) -> (r: usize)
        ensures
            r == self@.messages.len(),
    {
        self.messages.len()
    }

    /// The line at `index`, if there is one.
    pub fn get(&self, index: usize) -> (r: Option<&Message>)
        ensures
            match r {
                Some(message) => index < self@.messages.len() && message@
                    == self@.messages[index as int],
                None => index >= self@.messages.len(),
            },
    {
        if index < self.messages.len() {
            Some(&self.messages[index])
        } else {
            None
        }
    }

    /// The lines, oldest first.
    pub fn iter(&self) -> (r: &[Message])
        ensures
            r@.map_values(|m: Message| m@) == self@.messages,
    {
        self.messages.as_slice()
    }
}

} // verus!

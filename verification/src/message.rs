//! The messages of a conversation.

use vstd::prelude::*;

verus! {

/// Who wrote a message.
#[derive(Clone, Copy, Debug, PartialEq, Eq)]
pub enum Origin {
    User,
    Assistant,
}

/// What a message is: its text and who wrote it.
pub struct MessageView {
    pub content: Seq<char>,
    pub origin: Origin,
}

/// One message of the conversation. It never changes once made.
#[derive(Clone, Debug, PartialEq, Eq)]
pub struct Message {
    content: String,
    origin: Origin,
}

impl View for Message {
    type V = MessageView;

    closed spec fn view(&self) -> MessageView {
        MessageView { content: self.content@, origin: self.origin }
    }
}

impl Message {
    /// A message with the given text and origin.
    pub fn new(content: String, origin: Origin) -> (message: Message)
        ensures
            message@ == (MessageView { content: content@, origin }),
    {
        Message { content, origin }
    }

    /// The text of the message.
    pub fn content(&self) -> (content: &String)
        ensures
            content@ == self@.content,
    {
        &self.content
    }

    /// Who wrote the message.
    pub fn origin(&self) -> (origin: Origin)
        ensures
            origin == self@.origin,
    {
        self.origin
    }
}

/// What a list of messages is: what each of them is, in the same order.
pub open spec fn views(messages: Seq<Message>) -> Seq<MessageView> {
    Seq::new(messages.len(), |i: int| messages[i]@)
}

} // verus!

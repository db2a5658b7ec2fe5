//! Conversation messages.

use vstd::prelude::*;

verus! {

/// Who authored a message.
#[derive(Clone, Copy, Debug, PartialEq, Eq, Structural)]
pub enum Role {
    User,
    Assistant,
    Tool,
}

/// The mathematical value of a [`Message`].
pub ghost struct MessageView {
    pub role: Role,
    pub content: Seq<char>,
}

/// One entry of a conversation: an author and a text. A message is never
/// changed after it was made.
#[derive(Debug, PartialEq, Eq)]
pub struct Message {
    role: Role,
    content: String,
}

impl View for Message {
    type V = MessageView;

    closed spec fn view(&self) -> MessageView {
        MessageView { role: self.role, content: self.content@ }
    }
}

/// The user message with the given text.
pub open spec fn user_message(content: Seq<char>) -> MessageView {
    MessageView { role: Role::User, content }
}

/// The assistant message with the given text.
pub open spec fn assistant_message(content: Seq<char>) -> MessageView {
    MessageView { role: Role::Assistant, content }
}

/// The tool message with the given text.
pub open spec fn tool_message(content: Seq<char>) -> MessageView {
    MessageView { role: Role::Tool, content }
}

impl Message {
    pub fn new(role: Role, content: String) -> (m: Message)
        ensures
            m@ == (MessageView { role, content: content@ }),
    {
        Message { role, content }
    }

    pub fn user(content: String) -> (m: Message)
        ensures
            m@ == user_message(content@),
    {
        Message { role: Role::User, content }
    }

    pub fn assistant(content: String) -> (m: Message)
        ensures
            m@ == assistant_message(content@),
    {
        Message { role: Role::Assistant, content }
    }

    pub fn tool(content: String) -> (m: Message)
        ensures
            m@ == tool_message(content@),
    {
        Message { role: Role::Tool, content }
    }

    pub fn role(&self) -> (r: Role)
        ensures
            r == self@.role,
    {
        self.role
    }

    pub fn content(&self) -> (s: &str)
        ensures
            s@ == self@.content,
    {
        self.content.as_str()
    }
}

impl Clone for Message {
    fn clone(&self) -> (m: Message)
        ensures
            m@ == self@,
    {
        Message { role: self.role, content: self.content.clone() }
    }
}

} // verus!

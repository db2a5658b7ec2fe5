//! The ordered message history of the active conversation.

use vstd::prelude::*;
use crate::message::{Message, MessageView, Role, user_message, assistant_message};

verus! {

/// The mathematical values of a run of messages, in order.
pub open spec fn message_views(messages: Seq<Message>) -> Seq<MessageView> {
    Seq::new(messages.len(), |i: int| messages[i]@)
}

/// A history made of whole turns only: a user message at every even
/// position, the assistant's reply to it at the odd position that follows.
pub open spec fn paired(history: Seq<MessageView>) -> bool {
    &&& history.len() % 2 == 0
    &&& forall|i: int|
        0 <= i < history.len() ==> (#[trigger] history[i]).role == (if i % 2 == 0 {
            Role::User
        } else {
            Role::Assistant
        })
}

/// The history after one more completed turn.
pub open spec fn with_turn(history: Seq<MessageView>, prompt: Seq<char>, reply: Seq<char>) -> Seq<
    MessageView,
> {
    history.push(user_message(prompt)).push(assistant_message(reply))
}

/// The messages handed to the backend for a turn: the history so far, then
/// the user's new message.
pub open spec fn working_copy_of(history: Seq<MessageView>, prompt: Seq<char>) -> Seq<
    MessageView,
> {
    history.push(user_message(prompt))
}

/// The history after a new conversation was started: empty, whatever it held.
pub open spec fn after_reset(history: Seq<MessageView>) -> Seq<MessageView> {
    Seq::empty()
}

/// Starting a new conversation twice is starting it once: the history is
/// empty after the first time and after the second.
pub proof fn lemma_reset_twice(history: Seq<MessageView>)
    ensures
        after_reset(history).len() == 0,
        after_reset(after_reset(history)) == after_reset(history),
        paired(after_reset(history)),
{
}

/// A history of whole turns is still one after another turn is appended.
pub proof fn lemma_turn_keeps_pairs(history: Seq<MessageView>, prompt: Seq<char>, reply: Seq<char>)
    requires
        paired(history),
    ensures
        paired(with_turn(history, prompt, reply)),
{
    let next = with_turn(history, prompt, reply);
    assert forall|i: int| 0 <= i < next.len() implies (#[trigger] next[i]).role == (if i % 2 == 0 {
        Role::User
    } else {
        Role::Assistant
    }) by {
        if i < history.len() {
            assert(next[i] == history[i]);
        }
    }
}

/// The conversation so far. It grows by whole turns only, so it never holds
/// a user message without its reply, nor a reply that is still being built.
#[derive(Debug)]
pub struct ConversationHistory {
    messages: Vec<Message>,
}

impl View for ConversationHistory {
    type V = Seq<MessageView>;

    closed spec fn view(&self) -> Seq<MessageView> {
        message_views(self.messages@)
    }
}

impl ConversationHistory {
    #[verifier::type_invariant]
    spec fn whole_turns(&self) -> bool {
        paired(message_views(self.messages@))
    }

    /// The empty history of a new session.
    pub fn new() -> (history: ConversationHistory)
        ensures
            history@ == Seq::<MessageView>::empty(),
    {
        ConversationHistory { messages: Vec::new() }
    }

    /// Number of messages held.
    pub fn len(&self) -> (n: usize)
        ensures
            n == self@.len(),
            paired(self@),
    {
        proof {
            use_type_invariant(self);
        }
        self.messages.len()
    }

    pub fn is_empty(&self) -> (b: bool)
        ensures
            b == (self@.len() == 0),
    {
        self.messages.len() == 0
    }

    /// A copy of the messages, oldest first.
    pub fn messages(&self) -> (copy: Vec<Message>)
        ensures
            message_views(copy@) == self@,
            paired(self@),
    {
        proof {
            use_type_invariant(self);
        }
        let mut copy: Vec<Message> = Vec::new();
        let mut i: usize = 0;
        while i < self.messages.len()
            invariant
                i <= self.messages.len(),
                copy@.len() == i,
                forall|j: int| 0 <= j < i ==> copy@[j]@ == self.messages@[j]@,
            decreases self.messages.len() - i,
        {
            copy.push(self.messages[i].clone());
            i += 1;
        }
        assert(message_views(copy@) =~= message_views(self.messages@));
        copy
    }

    /// The messages to submit for a new turn: a copy of the history with the
    /// user's message appended. The history itself is left as it is.
    pub fn working_copy(&self, prompt: &str) -> (copy: Vec<Message>)
        ensures
            message_views(copy@) == working_copy_of(self@, prompt@),
    {
        let mut copy = self.messages();
        copy.push(Message::user(prompt.to_owned()));
        copy
    }

    /// Appends one completed turn: the user's message and the assistant's
    /// reply to it, together.
    pub fn commit_turn(&mut self, prompt: String, reply: String)
        ensures
            final(self)@ == with_turn(old(self)@, prompt@, reply@),
    {
        proof {
            use_type_invariant(&*self);
        }
        let mut taken = ConversationHistory { messages: Vec::new() };
        core::mem::swap(self, &mut taken);
        let mut messages = taken.messages;
        messages.push(Message::user(prompt));
        messages.push(Message::assistant(reply));
        proof {
            assert(message_views(messages@) =~= with_turn(old(self)@, prompt@, reply@));
            lemma_turn_keeps_pairs(old(self)@, prompt@, reply@);
        }
        *self = ConversationHistory { messages };
    }

    /// Starts a new conversation: the history becomes empty.
    pub fn reset(&mut self)
        ensures
            final(self)@ == after_reset(old(self)@),
    {
        *self = ConversationHistory { messages: Vec::new() };
    }
}

} // verus!

//! The tool-augmented path: the backend may call tools before it answers,
//! and only its final answer reaches the history.

use vstd::prelude::*;
use ollama_rs::generation::chat::ChatMessage;
use crate::client::{client_messages, to_client_messages};
use crate::error::{ChatError, tool_chat_failure};
use crate::history::{ConversationHistory, message_views, with_turn, working_copy_of};
use crate::message::{Message, MessageView};
use crate::model::texts;
use crate::report::{TurnReport, TurnReportView};

verus! {

/// What the backend's tool-calling loop came to.
#[derive(Debug, PartialEq, Eq)]
pub struct ToolReply {
    /// The assistant's final text.
    pub text: String,
    /// Whether the backend marked the answer as complete.
    pub done: bool,
}

/// The mathematical value of a [`ToolReply`].
pub ghost struct ToolReplyView {
    pub text: Seq<char>,
    pub done: bool,
}

impl View for ToolReply {
    type V = ToolReplyView;

    open spec fn view(&self) -> ToolReplyView {
        ToolReplyView { text: self.text@, done: self.done }
    }
}

/// The backend's answer to a tool-augmented chat, as a mathematical value.
pub open spec fn tool_outcome_view(outcome: Result<ToolReply, String>) -> Result<
    ToolReplyView,
    Seq<char>,
> {
    match outcome {
        Ok(reply) => Ok(reply@),
        Err(detail) => Err(detail@),
    }
}

/// The history after a tool-augmented turn: one more whole turn where the
/// backend answered and marked the answer complete, and the history as it
/// was in every other case.
pub open spec fn tool_chat_history(
    history: Seq<MessageView>,
    prompt: Seq<char>,
    outcome: Result<ToolReplyView, Seq<char>>,
) -> Seq<MessageView> {
    match outcome {
        Ok(reply) => if reply.done {
            with_turn(history, prompt, reply.text)
        } else {
            history
        },
        Err(_) => history,
    }
}

/// What a tool-augmented turn reports: the answer's text is published
/// whenever the backend answered; a failure is returned and not published.
pub open spec fn tool_chat_report(outcome: Result<ToolReplyView, Seq<char>>) -> TurnReportView {
    match outcome {
        Ok(reply) => TurnReportView { published: seq![reply.text], result: Ok(()) },
        Err(detail) => TurnReportView {
            published: Seq::empty(),
            result: Err(tool_chat_failure(detail)),
        },
    }
}

/// A turn on the tool-augmented path.
#[derive(Debug)]
pub struct ToolChatTurn {
    model: String,
    prompt: String,
    messages: Vec<Message>,
}

/// The mathematical value of a [`ToolChatTurn`].
pub ghost struct ToolChatTurnView {
    pub model: Seq<char>,
    pub prompt: Seq<char>,
    pub messages: Seq<MessageView>,
}

impl View for ToolChatTurn {
    type V = ToolChatTurnView;

    closed spec fn view(&self) -> ToolChatTurnView {
        ToolChatTurnView {
            model: self.model@,
            prompt: self.prompt@,
            messages: message_views(self.messages@),
        }
    }
}

impl ToolChatTurn {
    /// Opens a turn against the history as it stands.
    pub fn start(model: String, prompt: String, history: &ConversationHistory) -> (turn:
        ToolChatTurn)
        ensures
            turn@.model == model@,
            turn@.prompt == prompt@,
            turn@.messages == working_copy_of(history@, prompt@),
    {
        let messages = history.working_copy(prompt.as_str());
        ToolChatTurn { model, prompt, messages }
    }

    /// The model to ask.
    pub fn model(&self) -> (name: &str)
        ensures
            name@ == self@.model,
    {
        self.model.as_str()
    }

    /// The messages to submit: the history at the start of the turn, then
    /// the user's message.
    pub fn messages(&self) -> (messages: &Vec<Message>)
        ensures
            message_views(messages@) == self@.messages,
    {
        &self.messages
    }

    /// The messages to submit, as the client takes them.
    pub fn submission(&self) -> (made: Vec<ChatMessage>)
        ensures
            made@ == client_messages(self@.messages),
    {
        to_client_messages(&self.messages)
    }

    /// Ends the turn with what the backend's loop came to, or with the
    /// backend's message where it failed.
    pub fn finish(self, history: &mut ConversationHistory, outcome: Result<ToolReply, String>) -> (report:
        TurnReport)
        ensures
            final(history)@ == tool_chat_history(
                old(history)@,
                self@.prompt,
                tool_outcome_view(outcome),
            ),
            report@ == tool_chat_report(tool_outcome_view(outcome)),
    {
        match outcome {
            Ok(reply) => {
                let mut published: Vec<String> = Vec::new();
                published.push(reply.text.clone());
                assert(texts(published@) =~= seq![reply.text@]);
                if reply.done {
                    history.commit_turn(self.prompt, reply.text);
                }
                TurnReport { published, result: Ok(()) }
            },
            Err(detail) => {
                let published: Vec<String> = Vec::new();
                assert(texts(published@) =~= Seq::<Seq<char>>::empty());
                TurnReport { published, result: Err(ChatError::tool_chat_failed(detail.as_str())) }
            },
        }
    }
}

} // verus!

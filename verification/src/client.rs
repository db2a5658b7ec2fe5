//! The values of the Ollama client that a turn hands to the backend.
//!
//! The client's types are opaque here. What is known of a value of theirs is
//! which constructor of the client made it, and from what.

use vstd::prelude::*;
use ollama_rs::generation::chat::ChatMessage;
use ollama_rs::generation::chat::request::ChatMessageRequest;
use ollama_rs::generation::embeddings::request::{EmbeddingsInput, GenerateEmbeddingsRequest};
use crate::history::message_views;
use crate::message::{Message, MessageView, Role};

verus! {

/// `ollama_rs::generation::chat::ChatMessage`, known as a type and no more.
#[verifier::external_type_specification]
#[verifier::external_body]
pub struct ExChatMessage(ChatMessage);

/// `ollama_rs::generation::chat::request::ChatMessageRequest`, known as a
/// type and no more.
#[verifier::external_type_specification]
#[verifier::external_body]
pub struct ExChatMessageRequest(ChatMessageRequest);

/// `ollama_rs::generation::embeddings::request::GenerateEmbeddingsRequest`,
/// known as a type and no more.
#[verifier::external_type_specification]
#[verifier::external_body]
pub struct ExGenerateEmbeddingsRequest(GenerateEmbeddingsRequest);

/// What `ChatMessage::user` returns for a text.
pub uninterp spec fn client_user_message(content: Seq<char>) -> ChatMessage;

/// What `ChatMessage::assistant` returns for a text.
pub uninterp spec fn client_assistant_message(content: Seq<char>) -> ChatMessage;

/// What `ChatMessage::tool` returns for a text.
pub uninterp spec fn client_tool_message(content: Seq<char>) -> ChatMessage;

/// What `ChatMessageRequest::new` returns for a model name and messages.
pub uninterp spec fn client_chat_request(model: Seq<char>, messages: Seq<ChatMessage>) -> ChatMessageRequest;

/// What `GenerateEmbeddingsRequest::new` returns for a model name and a
/// single input text.
pub uninterp spec fn client_embedding_request(model: Seq<char>, input: Seq<char>) -> GenerateEmbeddingsRequest;

/// `ChatMessage::user`: the client's user message with the given text. The
/// result depends on the text alone.
pub assume_specification[ ChatMessage::user ](content: String) -> (message: ChatMessage)
    ensures
        message == client_user_message(content@),
;

/// `ChatMessage::assistant`: the client's assistant message with the given
/// text. The result depends on the text alone.
pub assume_specification[ ChatMessage::assistant ](content: String) -> (message: ChatMessage)
    ensures
        message == client_assistant_message(content@),
;

/// `ChatMessage::tool`: the client's tool message with the given text. The
/// result depends on the text alone.
pub assume_specification[ ChatMessage::tool ](content: String) -> (message: ChatMessage)
    ensures
        message == client_tool_message(content@),
;

/// `ChatMessageRequest::new`: the client's chat request for a model and the
/// messages to submit, every option left at its default. The result depends
/// on the two arguments alone.
pub assume_specification[ ChatMessageRequest::new ](
    model_name: String,
    messages: Vec<ChatMessage>,
) -> (request: ChatMessageRequest)
    ensures
        request == client_chat_request(model_name@, messages@),
;

/// `GenerateEmbeddingsRequest::new` on `EmbeddingsInput::Single`: the
/// client's request to embed one text with a model, every option left at its
/// default. The result depends on the two texts alone.
#[verifier::external_body]
fn single_input_request(model: String, input: String) -> (request: GenerateEmbeddingsRequest)
    ensures
        request == client_embedding_request(model@, input@),
{
    GenerateEmbeddingsRequest::new(model, EmbeddingsInput::Single(input))
}

/// The client's message for a message of the conversation.
pub open spec fn client_message(message: MessageView) -> ChatMessage {
    match message.role {
        Role::User => client_user_message(message.content),
        Role::Assistant => client_assistant_message(message.content),
        Role::Tool => client_tool_message(message.content),
    }
}

/// The client's messages for a run of messages, in order.
pub open spec fn client_messages(messages: Seq<MessageView>) -> Seq<ChatMessage> {
    Seq::new(messages.len(), |i: int| client_message(messages[i]))
}

/// Makes the client's message for a message of the conversation.
pub fn to_client_message(message: &Message) -> (made: ChatMessage)
    ensures
        made == client_message(message@),
{
    let content = message.content().to_owned();
    match message.role() {
        Role::User => ChatMessage::user(content),
        Role::Assistant => ChatMessage::assistant(content),
        Role::Tool => ChatMessage::tool(content),
    }
}

/// Makes the client's messages for a run of messages, in order.
pub fn to_client_messages(messages: &Vec<Message>) -> (made: Vec<ChatMessage>)
    ensures
        made@ == client_messages(message_views(messages@)),
{
    let mut made: Vec<ChatMessage> = Vec::new();
    let mut i: usize = 0;
    while i < messages.len()
        invariant
            i <= messages.len(),
            made@.len() == i,
            forall|j: int| 0 <= j < i ==> made@[j] == client_message(messages@[j]@),
        decreases messages.len() - i,
    {
        made.push(to_client_message(&messages[i]));
        i += 1;
    }
    assert(made@ =~= client_messages(message_views(messages@)));
    made
}

/// Makes the client's chat request for a model and the messages to submit.
pub fn chat_request(model: &str, messages: &Vec<Message>) -> (request: ChatMessageRequest)
    ensures
        request == client_chat_request(
            model@,
            client_messages(message_views(messages@)),
        ),
{
    ChatMessageRequest::new(model.to_owned(), to_client_messages(messages))
}

/// Makes the client's request to embed one text with a model.
pub fn embedding_request(model: &str, input: &str) -> (request: GenerateEmbeddingsRequest)
    ensures
        request == client_embedding_request(model@, input@),
{
    single_input_request(model.to_owned(), input.to_owned())
}

} // verus!

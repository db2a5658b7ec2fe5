use chat_dispatch::client::{chat_request, embedding_request, to_client_message, to_client_messages};
use chat_dispatch::message::Message;
use ollama_rs::generation::chat::MessageRole;
use ollama_rs::generation::embeddings::request::EmbeddingsInput;

#[test]
fn each_role_maps_to_the_clients_role() {
    let user = to_client_message(&Message::user("u".to_string()));
    let assistant = to_client_message(&Message::assistant("a".to_string()));
    let tool = to_client_message(&Message::tool("t".to_string()));
    assert_eq!((user.role, user.content.as_str()), (MessageRole::User, "u"));
    assert_eq!((assistant.role, assistant.content.as_str()), (MessageRole::Assistant, "a"));
    assert_eq!((tool.role, tool.content.as_str()), (MessageRole::Tool, "t"));
    assert!(user.tool_calls.is_empty());
    assert!(user.images.is_none());
}

#[test]
fn client_messages_keep_order_and_count() {
    assert!(to_client_messages(&Vec::new()).is_empty());
    let made = to_client_messages(&vec![
        Message::tool("1".to_string()),
        Message::user("2".to_string()),
    ]);
    assert_eq!(made.len(), 2);
    assert_eq!(made[0].content, "1");
    assert_eq!(made[0].role, MessageRole::Tool);
    assert_eq!(made[1].content, "2");
    assert_eq!(made[1].role, MessageRole::User);
}

#[test]
fn chat_request_holds_model_and_messages() {
    let request = chat_request("m", &vec![Message::user("hello".to_string())]);
    assert_eq!(request.model_name, "m");
    assert_eq!(request.messages.len(), 1);
    assert_eq!(request.messages[0].content, "hello");
}

#[test]
fn embedding_request_holds_model_and_single_input() {
    let request = embedding_request("e", "text");
    assert_eq!(request.model_name, "e");
    assert_eq!(request.input, EmbeddingsInput::Single("text".to_string()));
}

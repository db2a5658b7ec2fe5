use chat_dispatch::error::ChatError;

#[test]
fn every_kind_carries_its_description() {
    assert_eq!(
        ChatError::embedding_failed("x"),
        ChatError::EmbeddingFailed("Failed to generate embeddings: x".to_string())
    );
    assert_eq!(
        ChatError::tool_chat_failed("x"),
        ChatError::ToolChatFailed("Failed to get chat response: x".to_string())
    );
    assert_eq!(
        ChatError::stream_open_failed("x"),
        ChatError::ChatStreamFailed("Failed to start chat stream: x".to_string())
    );
    assert_eq!(
        ChatError::stream_read_failed("x"),
        ChatError::ChatStreamFailed("Failed to get chat response: x".to_string())
    );
    assert_eq!(
        ChatError::stream_ended(),
        ChatError::ChatStreamFailed(
            "Chat stream ended before the response was complete".to_string()
        )
    );
    assert_eq!(
        ChatError::model_info_failed("m", "x"),
        ChatError::ModelNotFound("Failed to get model info for 'm': x".to_string())
    );
    assert_eq!(
        ChatError::download_failed("m", "x"),
        ChatError::BackendUnavailable("Failed to download model 'm': x".to_string())
    );
    assert_eq!(
        ChatError::delete_failed("m", "x"),
        ChatError::BackendUnavailable("Failed to delete model 'm': x".to_string())
    );
    assert_eq!(
        ChatError::list_failed("x"),
        ChatError::BackendUnavailable("Failed to list models: x".to_string())
    );
}

#[test]
fn message_returns_the_description_of_each_kind() {
    assert_eq!(ChatError::EmbeddingFailed("a".to_string()).message(), "a");
    assert_eq!(ChatError::ToolChatFailed("b".to_string()).message(), "b");
    assert_eq!(ChatError::ChatStreamFailed("c".to_string()).message(), "c");
    assert_eq!(ChatError::ModelNotFound("d".to_string()).message(), "d");
    assert_eq!(ChatError::BackendUnavailable("e".to_string()).message(), "e");
    assert_eq!(
        ChatError::download_failed("llama3", "timeout").message(),
        "Failed to download model 'llama3': timeout"
    );
}

#[test]
fn empty_details_leave_the_prefix() {
    assert_eq!(ChatError::embedding_failed("").message(), "Failed to generate embeddings: ");
    assert_eq!(ChatError::model_info_failed("", "").message(), "Failed to get model info for '': ");
}

#[test]
fn error_clone_is_equal() {
    let e = ChatError::delete_failed("m", "x");
    assert_eq!(e.clone(), e);
}

//! The failures that a caller can be handed, each with its description.

use vstd::prelude::*;
use crate::text::append;

verus! {

/// The mathematical value of a [`ChatError`].
pub ghost enum ChatErrorView {
    EmbeddingFailed(Seq<char>),
    ToolChatFailed(Seq<char>),
    ChatStreamFailed(Seq<char>),
    ModelNotFound(Seq<char>),
    BackendUnavailable(Seq<char>),
}

/// A failed operation. Each kind carries the description that the caller is
/// shown, which ends in what the backend reported.
#[derive(Debug, PartialEq, Eq)]
pub enum ChatError {
    /// The backend could not produce embeddings.
    EmbeddingFailed(String),
    /// The tool-augmented chat did not come to an answer.
    ToolChatFailed(String),
    /// The streamed chat could not be started, broke off, or ended before
    /// the backend had signalled completion.
    ChatStreamFailed(String),
    /// The backend could not describe the model.
    ModelNotFound(String),
    /// The backend could not be reached for a registry operation.
    BackendUnavailable(String),
}

impl View for ChatError {
    type V = ChatErrorView;

    open spec fn view(&self) -> ChatErrorView {
        match self {
            ChatError::EmbeddingFailed(m) => ChatErrorView::EmbeddingFailed(m@),
            ChatError::ToolChatFailed(m) => ChatErrorView::ToolChatFailed(m@),
            ChatError::ChatStreamFailed(m) => ChatErrorView::ChatStreamFailed(m@),
            ChatError::ModelNotFound(m) => ChatErrorView::ModelNotFound(m@),
            ChatError::BackendUnavailable(m) => ChatErrorView::BackendUnavailable(m@),
        }
    }
}

impl ChatErrorView {
    /// The description carried.
    pub open spec fn message(self) -> Seq<char> {
        match self {
            ChatErrorView::EmbeddingFailed(m) => m,
            ChatErrorView::ToolChatFailed(m) => m,
            ChatErrorView::ChatStreamFailed(m) => m,
            ChatErrorView::ModelNotFound(m) => m,
            ChatErrorView::BackendUnavailable(m) => m,
        }
    }
}

/// Description of a failed embedding request.
pub open spec fn embedding_failure(detail: Seq<char>) -> ChatErrorView {
    ChatErrorView::EmbeddingFailed("Failed to generate embeddings: "@ + detail)
}

/// Description of a failed tool-augmented chat.
pub open spec fn tool_chat_failure(detail: Seq<char>) -> ChatErrorView {
    ChatErrorView::ToolChatFailed("Failed to get chat response: "@ + detail)
}

/// Description of a streamed chat that could not be started.
pub open spec fn stream_open_failure(detail: Seq<char>) -> ChatErrorView {
    ChatErrorView::ChatStreamFailed("Failed to start chat stream: "@ + detail)
}

/// Description of a streamed chat of which a chunk could not be read.
pub open spec fn stream_read_failure(detail: Seq<char>) -> ChatErrorView {
    ChatErrorView::ChatStreamFailed("Failed to get chat response: "@ + detail)
}

/// Description of a streamed chat that ended without a final chunk.
pub open spec fn stream_end_failure() -> ChatErrorView {
    ChatErrorView::ChatStreamFailed("Chat stream ended before the response was complete"@)
}

/// Description of a model that the backend could not describe.
pub open spec fn model_info_failure(name: Seq<char>, detail: Seq<char>) -> ChatErrorView {
    ChatErrorView::ModelNotFound("Failed to get model info for '"@ + name + "': "@ + detail)
}

/// Description of a model that could not be installed.
pub open spec fn download_failure(name: Seq<char>, detail: Seq<char>) -> ChatErrorView {
    ChatErrorView::BackendUnavailable("Failed to download model '"@ + name + "': "@ + detail)
}

/// Description of a model that could not be removed.
pub open spec fn delete_failure(name: Seq<char>, detail: Seq<char>) -> ChatErrorView {
    ChatErrorView::BackendUnavailable("Failed to delete model '"@ + name + "': "@ + detail)
}

/// Description of a model list that could not be fetched.
pub open spec fn list_failure(detail: Seq<char>) -> ChatErrorView {
    ChatErrorView::BackendUnavailable("Failed to list models: "@ + detail)
}

/// `opening`, the name, `"': "`, then the detail.
fn about_model(opening: &str, name: &str, detail: &str) -> (text: String)
    ensures
        text@ == opening@ + name@ + "': "@ + detail@,
{
    let named = append(opening, name);
    let introduced = append(named.as_str(), "': ");
    append(introduced.as_str(), detail)
}

impl ChatError {
    /// The description that the caller is shown.
    pub fn message(&self) -> (text: String)
        ensures
            text@ == self@.message(),
    {
        match self {
            ChatError::EmbeddingFailed(m) => m.clone(),
            ChatError::ToolChatFailed(m) => m.clone(),
            ChatError::ChatStreamFailed(m) => m.clone(),
            ChatError::ModelNotFound(m) => m.clone(),
            ChatError::BackendUnavailable(m) => m.clone(),
        }
    }

    pub fn embedding_failed(detail: &str) -> (error: ChatError)
        ensures
            error@ == embedding_failure(detail@),
    {
        ChatError::EmbeddingFailed(append("Failed to generate embeddings: ", detail))
    }

    pub fn tool_chat_failed(detail: &str) -> (error: ChatError)
        ensures
            error@ == tool_chat_failure(detail@),
    {
        ChatError::ToolChatFailed(append("Failed to get chat response: ", detail))
    }

    pub fn stream_open_failed(detail: &str) -> (error: ChatError)
        ensures
            error@ == stream_open_failure(detail@),
    {
        ChatError::ChatStreamFailed(append("Failed to start chat stream: ", detail))
    }

    pub fn stream_read_failed(detail: &str) -> (error: ChatError)
        ensures
            error@ == stream_read_failure(detail@),
    {
        ChatError::ChatStreamFailed(append("Failed to get chat response: ", detail))
    }

    pub fn stream_ended() -> (error: ChatError)
        ensures
            error@ == stream_end_failure(),
    {
        ChatError::ChatStreamFailed("Chat stream ended before the response was complete".to_owned())
    }

    pub fn model_info_failed(name: &str, detail: &str) -> (error: ChatError)
        ensures
            error@ == model_info_failure(name@, detail@),
    {
        ChatError::ModelNotFound(about_model("Failed to get model info for '", name, detail))
    }

    pub fn download_failed(name: &str, detail: &str) -> (error: ChatError)
        ensures
            error@ == download_failure(name@, detail@),
    {
        ChatError::BackendUnavailable(about_model("Failed to download model '", name, detail))
    }

    pub fn delete_failed(name: &str, detail: &str) -> (error: ChatError)
        ensures
            error@ == delete_failure(name@, detail@),
    {
        ChatError::BackendUnavailable(about_model("Failed to delete model '", name, detail))
    }

    pub fn list_failed(detail: &str) -> (error: ChatError)
        ensures
            error@ == list_failure(detail@),
    {
        ChatError::BackendUnavailable(append("Failed to list models: ", detail))
    }
}

impl Clone for ChatError {
    fn clone(&self) -> (copy: ChatError)
        ensures
            copy@ == self@,
    {
        match self {
            ChatError::EmbeddingFailed(m) => ChatError::EmbeddingFailed(m.clone()),
            ChatError::ToolChatFailed(m) => ChatError::ToolChatFailed(m.clone()),
            ChatError::ChatStreamFailed(m) => ChatError::ChatStreamFailed(m.clone()),
            ChatError::ModelNotFound(m) => ChatError::ModelNotFound(m.clone()),
            ChatError::BackendUnavailable(m) => ChatError::BackendUnavailable(m.clone()),
        }
    }
}

} // verus!

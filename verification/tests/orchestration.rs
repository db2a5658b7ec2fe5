use chat_dispatch::error::ChatError;
use chat_dispatch::message::Message;
use chat_dispatch::model::ModelRecord;
use chat_dispatch::orchestrator::{Dispatch, Orchestrator, ScriptedBackend};
use chat_dispatch::router::ExecutionPath;
use chat_dispatch::streaming::StreamItem;
use chat_dispatch::tool_chat::ToolReply;

fn model(name: &str, capabilities: &[&str]) -> ModelRecord {
    ModelRecord {
        name: name.to_string(),
        license: String::new(),
        parameters: String::new(),
        template: String::new(),
        model_file: String::new(),
        model_info: serde_json::Map::new(),
        capabilities: capabilities.iter().map(|c| c.to_string()).collect(),
    }
}

fn session() -> Orchestrator {
    let mut state = Orchestrator::new();
    state.models.install(model("modelX", &[]));
    state.models.install(model("modelY", &["embedding"]));
    state.models.install(model("modelZ", &["tools"]));
    state
}

fn chunk(text: &str, done: bool) -> StreamItem {
    StreamItem::Chunk { text: text.to_string(), done }
}

fn unused<T>() -> Result<T, String> {
    Err("not scripted".to_string())
}

fn streaming(stream: Result<Vec<StreamItem>, String>) -> ScriptedBackend {
    ScriptedBackend { embeddings: unused(), tool_chat: unused(), stream }
}

#[test]
fn plain_chat_streams_two_chunks_and_commits_them() {
    let mut state = session();
    let backend = streaming(Ok(vec![chunk("Hi", false), chunk("there", true)]));
    let report = state.handle_turn("modelX", "Hello", backend);
    assert_eq!(report.result, Ok(()));
    assert_eq!(report.published, vec!["Hi", "there"]);
    assert_eq!(
        state.history.messages(),
        vec![Message::user("Hello".to_string()), Message::assistant("Hithere".to_string())]
    );
}

#[test]
fn embedding_turn_publishes_vector_and_leaves_history() {
    let mut state = session();
    state.history.commit_turn("old".to_string(), "reply".to_string());
    let before = state.history.messages();
    let backend = ScriptedBackend {
        embeddings: Ok(vec![vec![0.1f32.to_string(), 0.2f32.to_string()]]),
        tool_chat: unused(),
        stream: unused(),
    };
    let report = state.handle_turn("modelY", "embed me", backend);
    assert_eq!(report.result, Ok(()));
    assert_eq!(report.published, vec!["0.1, 0.2"]);
    assert_eq!(state.history.messages(), before);
}

#[test]
fn stream_that_cannot_be_opened_fails_the_turn() {
    let mut state = session();
    state.history.commit_turn("old".to_string(), "reply".to_string());
    let before = state.history.messages();
    let report = state.handle_turn("modelX", "Hello", streaming(Err("connection refused".into())));
    assert_eq!(
        report.result,
        Err(ChatError::ChatStreamFailed(
            "Failed to start chat stream: connection refused".to_string()
        ))
    );
    assert!(report.published.is_empty());
    assert_eq!(state.history.messages(), before);
}

#[test]
fn unknown_model_takes_the_streaming_path() {
    let mut state = session();
    let report =
        state.handle_turn("never-heard-of", "Hello", streaming(Ok(vec![chunk("ok", true)])));
    assert_eq!(report.result, Ok(()));
    assert_eq!(
        state.history.messages(),
        vec![Message::user("Hello".to_string()), Message::assistant("ok".to_string())]
    );
}

#[test]
fn tool_model_uses_the_tool_answer_only() {
    let mut state = session();
    let backend = ScriptedBackend {
        embeddings: Ok(vec![vec!["1".to_string()]]),
        tool_chat: Ok(ToolReply { text: "found it".to_string(), done: true }),
        stream: Ok(vec![chunk("wrong path", true)]),
    };
    let report = state.handle_turn("modelZ", "look it up", backend);
    assert_eq!(report.result, Ok(()));
    assert_eq!(report.published, vec!["found it"]);
    assert_eq!(
        state.history.messages(),
        vec![Message::user("look it up".to_string()), Message::assistant("found it".to_string())]
    );
}

#[test]
fn tool_failure_is_typed_and_commits_nothing() {
    let mut state = session();
    let backend = ScriptedBackend {
        embeddings: unused(),
        tool_chat: Err("boom".to_string()),
        stream: unused(),
    };
    let report = state.handle_turn("modelZ", "look it up", backend);
    assert_eq!(
        report.result,
        Err(ChatError::ToolChatFailed("Failed to get chat response: boom".to_string()))
    );
    assert!(state.history.is_empty());
}

#[test]
fn embedding_failure_is_typed_and_commits_nothing() {
    let mut state = session();
    let backend =
        ScriptedBackend { embeddings: Err("down".to_string()), tool_chat: unused(), stream: unused() };
    let report = state.handle_turn("modelY", "embed me", backend);
    assert_eq!(
        report.result,
        Err(ChatError::EmbeddingFailed("Failed to generate embeddings: down".to_string()))
    );
    assert!(state.history.is_empty());
}

#[test]
fn two_turns_in_a_row_keep_their_pairs_together() {
    let mut state = session();
    let first = state.handle_turn(
        "modelX",
        "one",
        streaming(Ok(vec![chunk("1a", false), chunk("1b", true)])),
    );
    let second = state.handle_turn(
        "modelZ",
        "two",
        ScriptedBackend {
            embeddings: unused(),
            tool_chat: Ok(ToolReply { text: "2".to_string(), done: true }),
            stream: unused(),
        },
    );
    assert_eq!(first.result, Ok(()));
    assert_eq!(second.result, Ok(()));
    assert_eq!(
        state.history.messages(),
        vec![
            Message::user("one".to_string()),
            Message::assistant("1a1b".to_string()),
            Message::user("two".to_string()),
            Message::assistant("2".to_string()),
        ]
    );
}

#[test]
fn failed_turn_between_two_good_ones_leaves_no_trace() {
    let mut state = session();
    let _ = state.handle_turn("modelX", "one", streaming(Ok(vec![chunk("1", true)])));
    let failed = state.handle_turn("modelX", "lost", streaming(Ok(vec![chunk("partial", false)])));
    let _ = state.handle_turn("modelX", "two", streaming(Ok(vec![chunk("2", true)])));
    assert!(failed.result.is_err());
    assert_eq!(
        state.history.messages(),
        vec![
            Message::user("one".to_string()),
            Message::assistant("1".to_string()),
            Message::user("two".to_string()),
            Message::assistant("2".to_string()),
        ]
    );
}

#[test]
fn second_turn_submits_the_first_turns_pair() {
    let mut state = session();
    let _ = state.handle_turn("modelX", "one", streaming(Ok(vec![chunk("1", true)])));
    match state.begin_turn("modelX", "two") {
        Dispatch::PlainChat(turn) => assert_eq!(
            turn.messages(),
            &vec![
                Message::user("one".to_string()),
                Message::assistant("1".to_string()),
                Message::user("two".to_string()),
            ]
        ),
        other => panic!("wrong path: {:?}", other.execution_path()),
    }
}

#[test]
fn begin_turn_opens_the_routed_path_and_changes_nothing() {
    let state = session();
    assert_eq!(state.begin_turn("modelX", "p").execution_path(), ExecutionPath::PlainChat);
    assert_eq!(state.begin_turn("modelY", "p").execution_path(), ExecutionPath::Embedding);
    assert_eq!(state.begin_turn("modelZ", "p").execution_path(), ExecutionPath::ToolAugmented);
    assert_eq!(state.begin_turn("nobody", "p").execution_path(), ExecutionPath::PlainChat);
    match state.begin_turn("modelY", "the text") {
        Dispatch::Embedding(turn) => {
            assert_eq!(turn.model(), "modelY");
            assert_eq!(turn.input(), "the text");
        }
        other => panic!("wrong path: {:?}", other.execution_path()),
    }
    assert!(state.history.is_empty());
    assert_eq!(state.models.len(), 3);
}

#[test]
fn reset_conversation_twice_yields_empty_history_and_keeps_models() {
    let mut state = session();
    let _ = state.handle_turn("modelX", "one", streaming(Ok(vec![chunk("1", true)])));
    assert_eq!(state.history.len(), 2);
    state.reset_conversation();
    assert!(state.history.is_empty());
    state.reset_conversation();
    assert!(state.history.is_empty());
    assert_eq!(state.models.len(), 3);
}

#[test]
fn new_session_knows_nothing() {
    let state = Orchestrator::new();
    assert_eq!(state.models.len(), 0);
    assert!(state.history.is_empty());
}

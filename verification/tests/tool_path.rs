use chat_dispatch::error::ChatError;
use chat_dispatch::history::ConversationHistory;
use chat_dispatch::message::Message;
use chat_dispatch::tool_chat::{ToolChatTurn, ToolReply};

#[test]
fn tool_turn_submits_history_and_user_message() {
    let mut history = ConversationHistory::new();
    history.commit_turn("a".to_string(), "b".to_string());
    let turn = ToolChatTurn::start("m".to_string(), "search this".to_string(), &history);
    assert_eq!(turn.model(), "m");
    assert_eq!(
        turn.messages(),
        &vec![
            Message::user("a".to_string()),
            Message::assistant("b".to_string()),
            Message::user("search this".to_string()),
        ]
    );
}

#[test]
fn completed_tool_chat_commits_user_and_final_answer() {
    let mut history = ConversationHistory::new();
    let turn = ToolChatTurn::start("m".to_string(), "2+2?".to_string(), &history);
    let report = turn.finish(&mut history, Ok(ToolReply { text: "4".to_string(), done: true }));
    assert_eq!(report.result, Ok(()));
    assert_eq!(report.published, vec!["4"]);
    assert_eq!(
        history.messages(),
        vec![Message::user("2+2?".to_string()), Message::assistant("4".to_string())]
    );
}

#[test]
fn incomplete_tool_chat_publishes_but_commits_nothing() {
    let mut history = ConversationHistory::new();
    history.commit_turn("a".to_string(), "b".to_string());
    let before = history.messages();
    let turn = ToolChatTurn::start("m".to_string(), "q".to_string(), &history);
    let report =
        turn.finish(&mut history, Ok(ToolReply { text: "partial".to_string(), done: false }));
    assert_eq!(report.result, Ok(()));
    assert_eq!(report.published, vec!["partial"]);
    assert_eq!(history.messages(), before);
}

#[test]
fn failed_tool_chat_leaves_history_unchanged() {
    let mut history = ConversationHistory::new();
    history.commit_turn("a".to_string(), "b".to_string());
    let before = history.messages();
    let turn = ToolChatTurn::start("m".to_string(), "q".to_string(), &history);
    let report = turn.finish(&mut history, Err("tool crashed".to_string()));
    assert_eq!(
        report.result,
        Err(ChatError::ToolChatFailed("Failed to get chat response: tool crashed".to_string()))
    );
    assert!(report.published.is_empty());
    assert_eq!(history.messages(), before);
}

#[test]
fn submission_is_the_working_copy_in_the_clients_types() {
    let mut history = ConversationHistory::new();
    history.commit_turn("a".to_string(), "b".to_string());
    let turn = ToolChatTurn::start("m".to_string(), "c".to_string(), &history);
    let made = turn.submission();
    let seen: Vec<(ollama_rs::generation::chat::MessageRole, String)> =
        made.into_iter().map(|m| (m.role, m.content)).collect();
    assert_eq!(
        seen,
        vec![
            (ollama_rs::generation::chat::MessageRole::User, "a".to_string()),
            (ollama_rs::generation::chat::MessageRole::Assistant, "b".to_string()),
            (ollama_rs::generation::chat::MessageRole::User, "c".to_string()),
        ]
    );
}

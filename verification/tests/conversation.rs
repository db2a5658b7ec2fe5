use chat_dispatch::history::ConversationHistory;
use chat_dispatch::message::{Message, Role};

#[test]
fn new_history_is_empty() {
    let history = ConversationHistory::new();
    assert_eq!(history.len(), 0);
    assert!(history.is_empty());
    assert!(history.messages().is_empty());
}

#[test]
fn commit_appends_user_then_assistant() {
    let mut history = ConversationHistory::new();
    history.commit_turn("Hello".to_string(), "Hi there".to_string());
    assert_eq!(
        history.messages(),
        vec![Message::user("Hello".to_string()), Message::assistant("Hi there".to_string())]
    );
    history.commit_turn("And?".to_string(), "That is all".to_string());
    let messages = history.messages();
    assert_eq!(messages.len(), 4);
    assert_eq!(messages[2].role(), Role::User);
    assert_eq!(messages[2].content(), "And?");
    assert_eq!(messages[3].role(), Role::Assistant);
    assert_eq!(messages[3].content(), "That is all");
    assert!(!history.is_empty());
}

#[test]
fn working_copy_adds_the_user_message_and_leaves_history() {
    let mut history = ConversationHistory::new();
    history.commit_turn("a".to_string(), "b".to_string());
    let copy = history.working_copy("c");
    assert_eq!(
        copy,
        vec![
            Message::user("a".to_string()),
            Message::assistant("b".to_string()),
            Message::user("c".to_string()),
        ]
    );
    assert_eq!(history.len(), 2);
}

#[test]
fn reset_twice_is_empty_both_times() {
    let mut history = ConversationHistory::new();
    history.commit_turn("a".to_string(), "b".to_string());
    history.reset();
    assert!(history.is_empty());
    assert_eq!(history.messages(), Vec::<Message>::new());
    history.reset();
    assert!(history.is_empty());
    assert_eq!(history.messages(), Vec::<Message>::new());
}

#[test]
fn reset_of_empty_history_is_empty() {
    let mut history = ConversationHistory::new();
    history.reset();
    assert_eq!(history.len(), 0);
}

#[test]
fn history_can_grow_again_after_reset() {
    let mut history = ConversationHistory::new();
    history.commit_turn("a".to_string(), "b".to_string());
    history.reset();
    history.commit_turn("c".to_string(), "d".to_string());
    assert_eq!(
        history.messages(),
        vec![Message::user("c".to_string()), Message::assistant("d".to_string())]
    );
}

#[test]
fn message_constructors_set_role_and_text() {
    assert_eq!(Message::user("u".to_string()).role(), Role::User);
    assert_eq!(Message::assistant("a".to_string()).role(), Role::Assistant);
    assert_eq!(Message::tool("t".to_string()).role(), Role::Tool);
    assert_eq!(Message::new(Role::Tool, "x".to_string()), Message::tool("x".to_string()));
    assert_eq!(Message::tool("t".to_string()).content(), "t");
    let m = Message::user("same".to_string());
    assert_eq!(m.clone(), m);
}

use chat_dispatch::model::ModelRecord;
use chat_dispatch::registry::ModelCapabilityIndex;
use chat_dispatch::router::{classify, declares, route, ExecutionPath};

fn record(name: &str, capabilities: &[&str]) -> ModelRecord {
    ModelRecord {
        name: name.to_string(),
        license: String::new(),
        parameters: String::new(),
        template: String::new(),
        model_file: String::new(),
        model_info: serde_json::Map::new(),
        capabilities: capabilities.iter().map(|c| c.to_string()).collect(),
    }
}

fn index_of(records: Vec<ModelRecord>) -> ModelCapabilityIndex {
    let mut index = ModelCapabilityIndex::new();
    for r in records {
        index.install(r);
    }
    index
}

#[test]
fn embedding_wins_over_every_other_capability() {
    let index = index_of(vec![
        record("only", &["embedding"]),
        record("both", &["tools", "embedding"]),
        record("more", &["completion", "embedding", "tools", "vision"]),
    ]);
    assert_eq!(route("only", &index), ExecutionPath::Embedding);
    assert_eq!(route("both", &index), ExecutionPath::Embedding);
    assert_eq!(route("more", &index), ExecutionPath::Embedding);
}

#[test]
fn tools_without_embedding_is_tool_augmented() {
    let index = index_of(vec![
        record("t", &["tools"]),
        record("tc", &["completion", "tools"]),
    ]);
    assert_eq!(route("t", &index), ExecutionPath::ToolAugmented);
    assert_eq!(route("tc", &index), ExecutionPath::ToolAugmented);
}

#[test]
fn everything_else_is_plain_chat() {
    let index = index_of(vec![
        record("none", &[]),
        record("other", &["completion", "vision"]),
    ]);
    assert_eq!(route("none", &index), ExecutionPath::PlainChat);
    assert_eq!(route("other", &index), ExecutionPath::PlainChat);
}

#[test]
fn unknown_name_is_plain_chat() {
    let index = index_of(vec![record("known", &["embedding"])]);
    assert_eq!(route("unknown", &index), ExecutionPath::PlainChat);
    assert_eq!(route("", &index), ExecutionPath::PlainChat);
    assert_eq!(route("anything", &ModelCapabilityIndex::new()), ExecutionPath::PlainChat);
}

#[test]
fn capability_names_are_matched_whole_and_case_sensitive() {
    let index = index_of(vec![
        record("a", &["Embedding"]),
        record("b", &["embeddings"]),
        record("c", &["tool"]),
        record("d", &[" tools"]),
    ]);
    assert_eq!(route("a", &index), ExecutionPath::PlainChat);
    assert_eq!(route("b", &index), ExecutionPath::PlainChat);
    assert_eq!(route("c", &index), ExecutionPath::PlainChat);
    assert_eq!(route("d", &index), ExecutionPath::PlainChat);
}

#[test]
fn route_is_pure() {
    let index = index_of(vec![record("m", &["tools"])]);
    let first = route("m", &index);
    let second = route("m", &index);
    assert_eq!(first, second);
    assert_eq!(index.len(), 1);
}

#[test]
fn classify_follows_priority() {
    let caps = |v: &[&str]| v.iter().map(|c| c.to_string()).collect::<Vec<String>>();
    assert_eq!(classify(&caps(&["embedding", "tools"])), ExecutionPath::Embedding);
    assert_eq!(classify(&caps(&["tools"])), ExecutionPath::ToolAugmented);
    assert_eq!(classify(&caps(&[])), ExecutionPath::PlainChat);
}

#[test]
fn declares_finds_exact_entries() {
    let caps = vec!["completion".to_string(), "tools".to_string()];
    assert!(declares(&caps, "tools"));
    assert!(declares(&caps, "completion"));
    assert!(!declares(&caps, "embedding"));
    assert!(!declares(&Vec::new(), "tools"));
}

use chat_dispatch::embedding::{format_embeddings, EmbeddingTurn};
use chat_dispatch::error::ChatError;
use chat_dispatch::text::{append, join};

fn rendered(rows: &[&[f32]]) -> Vec<Vec<String>> {
    rows.iter().map(|row| row.iter().map(|x| x.to_string()).collect()).collect()
}

#[test]
fn one_vector_is_one_comma_separated_line() {
    assert_eq!(format_embeddings(&rendered(&[&[0.1, 0.2]])), "0.1, 0.2");
}

#[test]
fn vectors_are_separated_by_line_breaks() {
    assert_eq!(
        format_embeddings(&rendered(&[&[0.1, 0.2], &[-1.5], &[3.0, 4.25, 5.0]])),
        "0.1, 0.2\n-1.5\n3, 4.25, 5"
    );
}

#[test]
fn no_vectors_is_empty_text() {
    assert_eq!(format_embeddings(&Vec::new()), "");
}

#[test]
fn empty_vectors_give_empty_lines() {
    assert_eq!(format_embeddings(&rendered(&[&[], &[1.0], &[]])), "\n1\n");
}

#[test]
fn embedding_turn_asks_for_the_prompt_as_single_input() {
    let turn = EmbeddingTurn::new("embedder".to_string(), "some text".to_string());
    assert_eq!(turn.model(), "embedder");
    assert_eq!(turn.input(), "some text");
}

#[test]
fn embedding_success_publishes_the_vectors() {
    let turn = EmbeddingTurn::new("embedder".to_string(), "some text".to_string());
    let report = turn.finish(Ok(rendered(&[&[0.1, 0.2]])));
    assert_eq!(report.result, Ok(()));
    assert_eq!(report.published, vec!["0.1, 0.2"]);
}

#[test]
fn embedding_failure_is_returned_and_published() {
    let turn = EmbeddingTurn::new("embedder".to_string(), "some text".to_string());
    let report = turn.finish(Err("model is not loaded".to_string()));
    assert_eq!(
        report.result,
        Err(ChatError::EmbeddingFailed(
            "Failed to generate embeddings: model is not loaded".to_string()
        ))
    );
    assert_eq!(report.published, vec!["Failed to generate embeddings: model is not loaded"]);
}

#[test]
fn join_puts_the_separator_between_neighbours_only() {
    let parts = |v: &[&str]| v.iter().map(|s| s.to_string()).collect::<Vec<String>>();
    assert_eq!(join(&parts(&[]), ", "), "");
    assert_eq!(join(&parts(&["a"]), ", "), "a");
    assert_eq!(join(&parts(&["a", "b", "c"]), ", "), "a, b, c");
    assert_eq!(join(&parts(&["", ""]), "-"), "-");
    assert_eq!(join(&parts(&["a", "b"]), ""), "ab");
}

#[test]
fn append_puts_tail_after_head() {
    assert_eq!(append("ab", "cd"), "abcd");
    assert_eq!(append("", "cd"), "cd");
    assert_eq!(append("ab", ""), "ab");
}

#[test]
fn request_embeds_the_prompt_as_a_single_input() {
    let turn = EmbeddingTurn::new("embedder".to_string(), "some text".to_string());
    let request = turn.request();
    assert_eq!(request.model_name, "embedder");
    assert_eq!(
        request.input,
        ollama_rs::generation::embeddings::request::EmbeddingsInput::Single(
            "some text".to_string()
        )
    );
    assert!(request.options.is_none());
}

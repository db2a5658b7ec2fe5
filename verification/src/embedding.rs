//! The embedding path: one request for vectors, published as text.

use vstd::prelude::*;
use ollama_rs::generation::embeddings::request::GenerateEmbeddingsRequest;
use crate::client::{client_embedding_request, embedding_request};
use crate::error::{ChatError, embedding_failure};
use crate::model::texts;
use crate::report::{TurnReport, TurnReportView};
use crate::text::{join, joined};

verus! {

/// The rendered numbers of each row of a list of vectors.
pub open spec fn row_texts(rows: Seq<Vec<String>>) -> Seq<Seq<Seq<char>>> {
    Seq::new(rows.len(), |i: int| texts(rows[i]@))
}

/// One line per vector: its numbers, separated by a comma and a space.
pub open spec fn embedding_lines(rows: Seq<Seq<Seq<char>>>) -> Seq<Seq<char>> {
    Seq::new(rows.len(), |i: int| joined(rows[i], ", "@))
}

/// The text published for a list of vectors: its lines, separated by a line
/// break.
pub open spec fn embedding_text(rows: Seq<Seq<Seq<char>>>) -> Seq<char> {
    joined(embedding_lines(rows), "\n"@)
}

/// What the embedding path reports for the backend's answer: the vectors as
/// text on success; on failure the error, which is also published.
pub open spec fn embedding_report(
    outcome: Result<Seq<Seq<Seq<char>>>, Seq<char>>,
) -> TurnReportView {
    match outcome {
        Ok(rows) => TurnReportView { published: seq![embedding_text(rows)], result: Ok(()) },
        Err(detail) => TurnReportView {
            published: seq![embedding_failure(detail).message()],
            result: Err(embedding_failure(detail)),
        },
    }
}

/// The backend's answer to an embedding request, as a mathematical value.
pub open spec fn embedding_outcome_view(outcome: Result<Vec<Vec<String>>, String>) -> Result<
    Seq<Seq<Seq<char>>>,
    Seq<char>,
> {
    match outcome {
        Ok(rows) => Ok(row_texts(rows@)),
        Err(detail) => Err(detail@),
    }
}

/// Renders vectors, given as rows of rendered numbers, one line per vector.
pub fn format_embeddings(rows: &Vec<Vec<String>>) -> (text: String)
    ensures
        text@ == embedding_text(row_texts(rows@)),
{
    let mut lines: Vec<String> = Vec::new();
    let mut i: usize = 0;
    while i < rows.len()
        invariant
            i <= rows.len(),
            lines@.len() == i,
            forall|j: int| 0 <= j < i ==> lines@[j]@ == joined(texts(rows@[j]@), ", "@),
        decreases rows.len() - i,
    {
        lines.push(join(&rows[i], ", "));
        i += 1;
    }
    assert(texts(lines@) =~= embedding_lines(row_texts(rows@)));
    join(&lines, "\n")
}

/// A turn on the embedding path. It holds no history and is given none.
#[derive(Debug)]
pub struct EmbeddingTurn {
    model: String,
    prompt: String,
}

impl EmbeddingTurn {
    pub closed spec fn model_view(&self) -> Seq<char> {
        self.model@
    }

    pub closed spec fn prompt_view(&self) -> Seq<char> {
        self.prompt@
    }

    pub fn new(model: String, prompt: String) -> (turn: EmbeddingTurn)
        ensures
            turn.model_view() == model@,
            turn.prompt_view() == prompt@,
    {
        EmbeddingTurn { model, prompt }
    }

    /// The model to ask.
    pub fn model(&self) -> (name: &str)
        ensures
            name@ == self.model_view(),
    {
        self.model.as_str()
    }

    /// The single text to embed.
    pub fn input(&self) -> (text: &str)
        ensures
            text@ == self.prompt_view(),
    {
        self.prompt.as_str()
    }

    /// The request to send: embed the prompt, as a single input, with the
    /// model.
    pub fn request(&self) -> (request: GenerateEmbeddingsRequest)
        ensures
            request == client_embedding_request(self.model_view(), self.prompt_view()),
    {
        embedding_request(self.model.as_str(), self.prompt.as_str())
    }

    /// Ends the turn with the backend's answer: the vectors as rows of
    /// rendered numbers, or the backend's message.
    pub fn finish(self, outcome: Result<Vec<Vec<String>>, String>) -> (report: TurnReport)
        ensures
            report@ == embedding_report(embedding_outcome_view(outcome)),
    {
        match outcome {
            Ok(rows) => {
                let mut published: Vec<String> = Vec::new();
                published.push(format_embeddings(&rows));
                assert(texts(published@) =~= seq![embedding_text(row_texts(rows@))]);
                TurnReport { published, result: Ok(()) }
            },
            Err(detail) => {
                let error = ChatError::embedding_failed(detail.as_str());
                let mut published: Vec<String> = Vec::new();
                published.push(error.message());
                assert(texts(published@) =~= seq![embedding_failure(detail@).message()]);
                TurnReport { published, result: Err(error) }
            },
        }
    }
}

} // verus!

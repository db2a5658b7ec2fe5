//! One user turn from start to end: choose the path, run it, commit once.

use vstd::prelude::*;
use crate::embedding::{EmbeddingTurn, embedding_outcome_view, embedding_report};
use crate::error::stream_open_failure;
use crate::history::{
    ConversationHistory, after_reset, lemma_turn_keeps_pairs, paired, with_turn, working_copy_of,
};
use crate::message::MessageView;
use crate::model::{ModelRecordView, texts};
use crate::registry::ModelCapabilityIndex;
use crate::report::{TurnEnd, TurnReport, TurnReportView};
use crate::router::{ExecutionPath, route, route_of};
use crate::text::concatenated;
use crate::streaming::{
    StreamItem, StreamItemView, StreamingTurn, StreamingTurnView, item_views,
    lemma_commit_or_nothing, stream_run,
};
use crate::tool_chat::{
    ToolChatTurn, ToolChatTurnView, ToolReply, ToolReplyView, tool_chat_history, tool_chat_report,
    tool_outcome_view,
};

verus! {

/// A turn that has been given its path and waits for the backend.
#[derive(Debug)]
pub enum Dispatch {
    Embedding(EmbeddingTurn),
    ToolAugmented(ToolChatTurn),
    PlainChat(StreamingTurn),
}

impl Dispatch {
    /// The path that the turn was given.
    pub open spec fn path(&self) -> ExecutionPath {
        match self {
            Dispatch::Embedding(_) => ExecutionPath::Embedding,
            Dispatch::ToolAugmented(_) => ExecutionPath::ToolAugmented,
            Dispatch::PlainChat(_) => ExecutionPath::PlainChat,
        }
    }

    /// The turn is the one that starts from `history` for `model` and
    /// `prompt`: it names them, and where it chats it submits the history
    /// followed by the user's message and has received nothing yet.
    pub open spec fn opens(
        &self,
        history: Seq<MessageView>,
        model: Seq<char>,
        prompt: Seq<char>,
    ) -> bool {
        match self {
            Dispatch::Embedding(turn) => turn.model_view() == model && turn.prompt_view() == prompt,
            Dispatch::ToolAugmented(turn) => turn@ == (ToolChatTurnView {
                model,
                prompt,
                messages: working_copy_of(history, prompt),
            }),
            Dispatch::PlainChat(turn) => turn@ == (StreamingTurnView {
                model,
                prompt,
                messages: working_copy_of(history, prompt),
                buffer: Seq::empty(),
            }),
        }
    }

    /// Which path the turn was given.
    pub fn execution_path(&self) -> (path: ExecutionPath)
        ensures
            path == self.path(),
    {
        match self {
            Dispatch::Embedding(_) => ExecutionPath::Embedding,
            Dispatch::ToolAugmented(_) => ExecutionPath::ToolAugmented,
            Dispatch::PlainChat(_) => ExecutionPath::PlainChat,
        }
    }
}

/// What a backend answers to each of the three operations, written down
/// ahead of the turn.
#[derive(Debug)]
pub struct ScriptedBackend {
    /// The answer to an embedding request: rows of rendered numbers.
    pub embeddings: Result<Vec<Vec<String>>, String>,
    /// The answer to a tool-augmented chat.
    pub tool_chat: Result<ToolReply, String>,
    /// The answer to a streamed chat: the items of the stream, or the
    /// message with which the backend refused to open it.
    pub stream: Result<Vec<StreamItem>, String>,
}

/// The mathematical value of a [`ScriptedBackend`].
pub ghost struct ScriptedBackendView {
    pub embeddings: Result<Seq<Seq<Seq<char>>>, Seq<char>>,
    pub tool_chat: Result<ToolReplyView, Seq<char>>,
    pub stream: Result<Seq<StreamItemView>, Seq<char>>,
}

impl View for ScriptedBackend {
    type V = ScriptedBackendView;

    open spec fn view(&self) -> ScriptedBackendView {
        ScriptedBackendView {
            embeddings: embedding_outcome_view(self.embeddings),
            tool_chat: tool_outcome_view(self.tool_chat),
            stream: match self.stream {
                Ok(items) => Ok(item_views(items@)),
                Err(detail) => Err(detail@),
            },
        }
    }
}

/// A whole turn against a backend that answers as scripted.
///
/// The path is chosen once, from the index as it is when the turn starts.
/// The embedding path reports and leaves the history alone; either chat
/// path leaves it alone or extends it by one whole turn.
pub open spec fn turn_end(
    models: Seq<ModelRecordView>,
    history: Seq<MessageView>,
    model: Seq<char>,
    prompt: Seq<char>,
    backend: ScriptedBackendView,
) -> TurnEnd {
    match route_of(models, model) {
        ExecutionPath::Embedding => TurnEnd {
            history,
            report: embedding_report(backend.embeddings),
        },
        ExecutionPath::ToolAugmented => TurnEnd {
            history: tool_chat_history(history, prompt, backend.tool_chat),
            report: tool_chat_report(backend.tool_chat),
        },
        ExecutionPath::PlainChat => match backend.stream {
            Ok(items) => stream_run(history, prompt, Seq::empty(), items),
            Err(detail) => TurnEnd {
                history,
                report: TurnReportView {
                    published: Seq::empty(),
                    result: Err(stream_open_failure(detail)),
                },
            },
        },
    }
}

/// The state that the turns of one session share: the models known and the
/// conversation so far. Whoever holds it mutably holds it alone.
pub struct Orchestrator {
    pub models: ModelCapabilityIndex,
    pub history: ConversationHistory,
}

impl Orchestrator {
    /// The state of a new session: no model known, nothing said.
    pub fn new() -> (state: Orchestrator)
        ensures
            state.models@ == Seq::<ModelRecordView>::empty(),
            state.history@ == Seq::<MessageView>::empty(),
    {
        Orchestrator { models: ModelCapabilityIndex::new(), history: ConversationHistory::new() }
    }

    /// Starts a turn: classifies the model and opens the turn of the path
    /// that it selects. Nothing is changed by this.
    pub fn begin_turn(&self, model: &str, prompt: &str) -> (dispatch: Dispatch)
        ensures
            dispatch.path() == route_of(self.models@, model@),
            dispatch.opens(self.history@, model@, prompt@),
    {
        match route(model, &self.models) {
            ExecutionPath::Embedding => Dispatch::Embedding(
                EmbeddingTurn::new(model.to_owned(), prompt.to_owned()),
            ),
            ExecutionPath::ToolAugmented => Dispatch::ToolAugmented(
                ToolChatTurn::start(model.to_owned(), prompt.to_owned(), &self.history),
            ),
            ExecutionPath::PlainChat => Dispatch::PlainChat(
                StreamingTurn::start(model.to_owned(), prompt.to_owned(), &self.history),
            ),
        }
    }

    /// Runs one turn to its end against a backend that answers as scripted.
    pub fn handle_turn(&mut self, model: &str, prompt: &str, backend: ScriptedBackend) -> (report:
        TurnReport)
        ensures
            final(self).models@ == old(self).models@,
            final(self).history@ == turn_end(
                old(self).models@,
                old(self).history@,
                model@,
                prompt@,
                backend@,
            ).history,
            report@ == turn_end(
                old(self).models@,
                old(self).history@,
                model@,
                prompt@,
                backend@,
            ).report,
    {
        match self.begin_turn(model, prompt) {
            Dispatch::Embedding(turn) => turn.finish(backend.embeddings),
            Dispatch::ToolAugmented(turn) => turn.finish(&mut self.history, backend.tool_chat),
            Dispatch::PlainChat(turn) => match backend.stream {
                Ok(items) => turn.run(&mut self.history, &items),
                Err(detail) => {
                    let published: Vec<String> = Vec::new();
                    assert(texts(published@) =~= Seq::<Seq<char>>::empty());
                    TurnReport { published, result: Err(turn.open_failed(detail.as_str())) }
                },
            },
        }
    }

    /// Starts a new conversation: the history becomes empty, the models
    /// stay.
    pub fn reset_conversation(&mut self)
        ensures
            final(self).models@ == old(self).models@,
            final(self).history@ == after_reset(old(self).history@),
    {
        self.history.reset();
    }
}

/// `after` is `before`, or `before` and then one whole turn on `prompt`.
pub open spec fn whole_turn_or_nothing(
    before: Seq<MessageView>,
    after: Seq<MessageView>,
    prompt: Seq<char>,
) -> bool {
    after == before || exists|reply: Seq<char>| after == #[trigger] with_turn(before, prompt, reply)
}

/// Commit or nothing, for every path. A turn leaves the history as it was
/// or extends it by one whole turn on its prompt; a turn that fails leaves
/// it as it was; and a history of whole turns stays one.
pub proof fn lemma_turn_commits_whole(
    models: Seq<ModelRecordView>,
    history: Seq<MessageView>,
    model: Seq<char>,
    prompt: Seq<char>,
    backend: ScriptedBackendView,
)
    ensures
        whole_turn_or_nothing(history, turn_end(models, history, model, prompt, backend).history, prompt),
        turn_end(models, history, model, prompt, backend).report.result.is_err() ==> turn_end(
            models,
            history,
            model,
            prompt,
            backend,
        ).history == history,
        paired(history) ==> paired(turn_end(models, history, model, prompt, backend).history),
{
    let end = turn_end(models, history, model, prompt, backend);
    match route_of(models, model) {
        ExecutionPath::Embedding => {},
        ExecutionPath::ToolAugmented => {
            if let Ok(reply) = backend.tool_chat {
                if reply.done {
                    assert(end.history == with_turn(history, prompt, reply.text));
                }
            }
        },
        ExecutionPath::PlainChat => {
            if let Ok(items) = backend.stream {
                lemma_commit_or_nothing(history, prompt, Seq::empty(), items);
                if end.report.result.is_ok() {
                    let reply = Seq::<char>::empty() + concatenated(
                        end.report.published,
                    );
                    assert(end.history == with_turn(history, prompt, reply));
                }
            }
        },
    }
    if paired(history) && end.history != history {
        let reply = choose|reply: Seq<char>| end.history == #[trigger] with_turn(
            history,
            prompt,
            reply,
        );
        lemma_turn_keeps_pairs(history, prompt, reply);
    }
}

/// On the plain chat path the committed reply is what was published: a turn
/// that succeeds extends the history by the user's message and by the
/// concatenation, in order, of every text it published.
pub proof fn lemma_reply_is_what_was_published(
    models: Seq<ModelRecordView>,
    history: Seq<MessageView>,
    model: Seq<char>,
    prompt: Seq<char>,
    backend: ScriptedBackendView,
)
    requires
        route_of(models, model) == ExecutionPath::PlainChat,
        turn_end(models, history, model, prompt, backend).report.result.is_ok(),
    ensures
        turn_end(models, history, model, prompt, backend).history == with_turn(
            history,
            prompt,
            concatenated(turn_end(models, history, model, prompt, backend).report.published),
        ),
{
    let end = turn_end(models, history, model, prompt, backend);
    if let Ok(items) = backend.stream {
        lemma_commit_or_nothing(history, prompt, Seq::empty(), items);
        assert(Seq::<char>::empty() + concatenated(end.report.published) =~= concatenated(
            end.report.published,
        ));
    }
}

/// The embedding path never touches the history, whatever the backend
/// answers.
pub proof fn lemma_embedding_leaves_history(
    models: Seq<ModelRecordView>,
    history: Seq<MessageView>,
    model: Seq<char>,
    prompt: Seq<char>,
    backend: ScriptedBackendView,
)
    requires
        route_of(models, model) == ExecutionPath::Embedding,
    ensures
        turn_end(models, history, model, prompt, backend).history == history,
{
}

/// Two turns on one conversation never interleave. The second starts from
/// the history that the first left, so where both commit, the history ends
/// in the first turn's pair followed by the second's, each pair unbroken.
pub proof fn lemma_turns_do_not_interleave(
    models: Seq<ModelRecordView>,
    history: Seq<MessageView>,
    first_model: Seq<char>,
    first_prompt: Seq<char>,
    first_backend: ScriptedBackendView,
    second_model: Seq<char>,
    second_prompt: Seq<char>,
    second_backend: ScriptedBackendView,
)
    ensures
        ({
            let first = turn_end(models, history, first_model, first_prompt, first_backend);
            let second = turn_end(
                models,
                first.history,
                second_model,
                second_prompt,
                second_backend,
            );
            &&& whole_turn_or_nothing(history, first.history, first_prompt)
            &&& whole_turn_or_nothing(first.history, second.history, second_prompt)
            &&& first.history != history && second.history != first.history ==> exists|
                first_reply: Seq<char>,
                second_reply: Seq<char>,
            |
                second.history == #[trigger] with_turn(
                    with_turn(history, first_prompt, first_reply),
                    second_prompt,
                    second_reply,
                )
        }),
{
    let first = turn_end(models, history, first_model, first_prompt, first_backend);
    let second = turn_end(models, first.history, second_model, second_prompt, second_backend);
    lemma_turn_commits_whole(models, history, first_model, first_prompt, first_backend);
    lemma_turn_commits_whole(models, first.history, second_model, second_prompt, second_backend);
    if first.history != history && second.history != first.history {
        let first_reply = choose|reply: Seq<char>|
            first.history == #[trigger] with_turn(history, first_prompt, reply);
        let second_reply = choose|reply: Seq<char>|
            second.history == #[trigger] with_turn(first.history, second_prompt, reply);
        assert(second.history == with_turn(
            with_turn(history, first_prompt, first_reply),
            second_prompt,
            second_reply,
        ));
    }
}

} // verus!

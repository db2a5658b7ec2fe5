//! The plain chat path: the answer arrives in chunks, each chunk is
//! published as it comes, and the history is extended once, by the chunk
//! that the backend marks as the last.

use vstd::prelude::*;
use vstd::string::*;
use ollama_rs::generation::chat::request::ChatMessageRequest;
use crate::client::{chat_request, client_chat_request, client_messages};
use crate::error::{
    ChatError, ChatErrorView, stream_end_failure, stream_open_failure, stream_read_failure,
};
use crate::history::{ConversationHistory, message_views, with_turn, working_copy_of};
use crate::message::{Message, MessageView};
use crate::model::texts;
use crate::report::{TurnEnd, TurnReport, TurnReportView};
use crate::text::{concatenated, lemma_concatenated_front, lemma_concatenated_one};

verus! {

/// One item read from the backend's stream.
#[derive(Debug, PartialEq, Eq)]
pub enum StreamItem {
    /// A piece of the answer; `done` marks the last piece.
    Chunk { text: String, done: bool },
    /// The read failed, with the backend's message.
    ReadError(String),
}

/// The mathematical value of a [`StreamItem`].
pub ghost enum StreamItemView {
    Chunk { text: Seq<char>, done: bool },
    ReadError(Seq<char>),
}

impl View for StreamItem {
    type V = StreamItemView;

    open spec fn view(&self) -> StreamItemView {
        match self {
            StreamItem::Chunk { text, done } => StreamItemView::Chunk { text: text@, done: *done },
            StreamItem::ReadError(detail) => StreamItemView::ReadError(detail@),
        }
    }
}

/// The mathematical values of a run of stream items, in order.
pub open spec fn item_views(items: Seq<StreamItem>) -> Seq<StreamItemView> {
    Seq::new(items.len(), |i: int| items[i]@)
}

/// The mathematical value of a [`StreamingTurn`].
pub ghost struct StreamingTurnView {
    pub model: Seq<char>,
    pub prompt: Seq<char>,
    pub messages: Seq<MessageView>,
    /// The answer as far as it has arrived.
    pub buffer: Seq<char>,
}

/// A streamed turn carried over the items that the stream delivers, from a
/// given history and with `buffer` already received.
///
/// Every chunk is published with its own text and joins the buffer. The
/// chunk marked `done` commits the turn and ends it: what follows it is not
/// read. A failed read, or the end of the stream before such a chunk, fails
/// the turn and leaves the history as it was.
pub open spec fn stream_run(
    history: Seq<MessageView>,
    prompt: Seq<char>,
    buffer: Seq<char>,
    items: Seq<StreamItemView>,
) -> TurnEnd
    decreases items.len(),
{
    if items.len() == 0 {
        TurnEnd {
            history,
            report: TurnReportView { published: Seq::empty(), result: Err(stream_end_failure()) },
        }
    } else {
        match items[0] {
            StreamItemView::ReadError(detail) => TurnEnd {
                history,
                report: TurnReportView {
                    published: Seq::empty(),
                    result: Err(stream_read_failure(detail)),
                },
            },
            StreamItemView::Chunk { text, done } => if done {
                TurnEnd {
                    history: with_turn(history, prompt, buffer + text),
                    report: TurnReportView { published: seq![text], result: Ok(()) },
                }
            } else {
                let rest = stream_run(history, prompt, buffer + text, items.skip(1));
                TurnEnd {
                    history: rest.history,
                    report: TurnReportView {
                        published: seq![text] + rest.report.published,
                        result: rest.report.result,
                    },
                }
            },
        }
    }
}

/// A turn on the plain chat path, between two chunks.
#[derive(Debug)]
pub struct StreamingTurn {
    model: String,
    prompt: String,
    messages: Vec<Message>,
    buffer: String,
}

impl View for StreamingTurn {
    type V = StreamingTurnView;

    closed spec fn view(&self) -> StreamingTurnView {
        StreamingTurnView {
            model: self.model@,
            prompt: self.prompt@,
            messages: message_views(self.messages@),
            buffer: self.buffer@,
        }
    }
}

/// What one chunk leads to.
#[derive(Debug)]
pub struct ChunkStep {
    /// The chunk's own text, to publish on the chat event.
    pub publish: String,
    /// The turn, where more chunks are awaited; nothing, where the chunk was
    /// the last and the turn is committed.
    pub next: Option<StreamingTurn>,
}

impl StreamingTurn {
    /// Opens a turn against the history as it stands. Nothing has arrived yet.
    pub fn start(model: String, prompt: String, history: &ConversationHistory) -> (turn:
        StreamingTurn)
        ensures
            turn@.model == model@,
            turn@.prompt == prompt@,
            turn@.messages == working_copy_of(history@, prompt@),
            turn@.buffer == Seq::<char>::empty(),
    {
        let messages = history.working_copy(prompt.as_str());
        StreamingTurn { model, prompt, messages, buffer: String::new() }
    }

    /// The model to ask.
    pub fn model(&self) -> (name: &str)
        ensures
            name@ == self@.model,
    {
        self.model.as_str()
    }

    /// The messages to submit: the history at the start of the turn, then
    /// the user's message.
    pub fn messages(&self) -> (messages: &Vec<Message>)
        ensures
            message_views(messages@) == self@.messages,
    {
        &self.messages
    }

    /// The request to send: a chat with the model over the messages to
    /// submit.
    pub fn request(&self) -> (request: ChatMessageRequest)
        ensures
            request == client_chat_request(self@.model, client_messages(self@.messages)),
    {
        chat_request(self.model.as_str(), &self.messages)
    }

    /// The answer as far as it has arrived.
    pub fn received(&self) -> (text: &str)
        ensures
            text@ == self@.buffer,
    {
        self.buffer.as_str()
    }

    /// The backend refused to open the stream: the turn fails before any
    /// chunk, with the backend's message.
    pub fn open_failed(self, detail: &str) -> (error: ChatError)
        ensures
            error@ == stream_open_failure(detail@),
    {
        ChatError::stream_open_failed(detail)
    }

    /// A read from the stream failed: the turn fails, with the backend's
    /// message.
    pub fn read_failed(self, detail: &str) -> (error: ChatError)
        ensures
            error@ == stream_read_failure(detail@),
    {
        ChatError::stream_read_failed(detail)
    }

    /// The stream ended and no chunk was marked as the last: the turn fails.
    pub fn ended(self) -> (error: ChatError)
        ensures
            error@ == stream_end_failure(),
    {
        ChatError::stream_ended()
    }

    /// Takes one chunk. Its text joins what has arrived and is handed back
    /// for publishing. A chunk marked `done` commits the turn: the history
    /// grows by the user's message and the whole answer. Any other chunk
    /// leaves the history as it is and hands the turn back.
    pub fn on_chunk(self, history: &mut ConversationHistory, text: String, done: bool) -> (step:
        ChunkStep)
        ensures
            step.publish@ == text@,
            done ==> step.next.is_none() && final(history)@ == with_turn(
                old(history)@,
                self@.prompt,
                self@.buffer + text@,
            ),
            !done ==> final(history)@ == old(history)@ && step.next.is_some()
                && step.next.unwrap()@ == (StreamingTurnView {
                buffer: self@.buffer + text@,
                ..self@
            }),
    {
        let mut turn = self;
        turn.buffer.append(text.as_str());
        if done {
            history.commit_turn(turn.prompt, turn.buffer);
            ChunkStep { publish: text, next: None }
        } else {
            ChunkStep { publish: text, next: Some(turn) }
        }
    }

    /// Carries the turn over a recorded stream, item by item, as
    /// [`on_chunk`](Self::on_chunk), [`read_failed`](Self::read_failed) and
    /// [`ended`](Self::ended) would one after the other.
    #[verifier::loop_isolation(false)]
    pub fn run(self, history: &mut ConversationHistory, items: &Vec<StreamItem>) -> (report:
        TurnReport)
        ensures
            final(history)@ == stream_run(
                old(history)@,
                self@.prompt,
                self@.buffer,
                item_views(items@),
            ).history,
            report@ == stream_run(
                old(history)@,
                self@.prompt,
                self@.buffer,
                item_views(items@),
            ).report,
    {
        let ghost start = history@;
        let ghost prompt = self@.prompt;
        let ghost all = item_views(items@);
        let ghost whole = stream_run(start, prompt, self@.buffer, all);
        let mut published: Vec<String> = Vec::new();
        let mut turn = self;
        let mut i: usize = 0;
        assert(all.skip(0) =~= all);
        assert(texts(published@) + whole.report.published =~= whole.report.published);
        while i < items.len()
            invariant
                i <= items.len(),
                all == item_views(items@),
                history@ == start,
                turn@.prompt == prompt,
                whole.history == stream_run(start, prompt, turn@.buffer, all.skip(i as int)).history,
                whole.report.result == stream_run(
                    start,
                    prompt,
                    turn@.buffer,
                    all.skip(i as int),
                ).report.result,
                whole.report.published == texts(published@) + stream_run(
                    start,
                    prompt,
                    turn@.buffer,
                    all.skip(i as int),
                ).report.published,
            decreases items.len() - i,
        {
            let ghost rest = all.skip(i as int);
            let ghost before = texts(published@);
            proof {
                assert(rest.len() > 0);
                assert(rest[0] == items@[i as int]@);
                assert(rest.skip(1) =~= all.skip(i + 1));
            }
            match &items[i] {
                StreamItem::ReadError(detail) => {
                    assert(before + Seq::<Seq<char>>::empty() =~= before);
                    return TurnReport {
                        published,
                        result: Err(turn.read_failed(detail.as_str())),
                    };
                },
                StreamItem::Chunk { text, done } => {
                    let step = turn.on_chunk(history, text.clone(), *done);
                    published.push(step.publish);
                    proof {
                        assert(texts(published@) =~= before + seq![text@]);
                    }
                    match step.next {
                        None => {
                            return TurnReport { published, result: Ok(()) };
                        },
                        Some(next) => {
                            proof {
                                let tail = stream_run(start, prompt, next@.buffer, all.skip(i + 1));
                                assert(before + (seq![text@] + tail.report.published) =~= (before
                                    + seq![text@]) + tail.report.published);
                            }
                            turn = next;
                        },
                    }
                },
            }
            i += 1;
        }
        assert(texts(published@) + Seq::<Seq<char>>::empty() =~= texts(published@));
        TurnReport { published, result: Err(turn.ended()) }
    }
}

/// The item is a chunk that the backend marked as the last.
pub open spec fn is_final_chunk(item: StreamItemView) -> bool {
    item matches StreamItemView::Chunk { done, .. } && done
}

/// The item is a chunk that is not the last.
pub open spec fn is_partial_chunk(item: StreamItemView) -> bool {
    item matches StreamItemView::Chunk { done, .. } && !done
}

/// The item is a chunk with that text.
pub open spec fn carries(item: StreamItemView, text: Seq<char>) -> bool {
    match item {
        StreamItemView::Chunk { text: own, .. } => own == text,
        StreamItemView::ReadError(_) => false,
    }
}

/// The stream completes at item `k`: that item is the final chunk, and
/// before it come partial chunks only.
pub open spec fn completes_at(items: Seq<StreamItemView>, k: int) -> bool {
    &&& 0 <= k < items.len()
    &&& is_final_chunk(items[k])
    &&& forall|j: int| 0 <= j < k ==> is_partial_chunk(#[trigger] items[j])
}

/// A streamed turn succeeds exactly when its stream completes: a final
/// chunk arrives, and no read fails before it.
pub proof fn lemma_success_owed(
    history: Seq<MessageView>,
    prompt: Seq<char>,
    buffer: Seq<char>,
    items: Seq<StreamItemView>,
)
    ensures
        stream_run(history, prompt, buffer, items).report.result.is_ok() <==> exists|k: int|
            completes_at(items, k),
    decreases items.len(),
{
    let end = stream_run(history, prompt, buffer, items);
    if items.len() == 0 {
    } else {
        match items[0] {
            StreamItemView::ReadError(_) => {
                assert forall|k: int| !completes_at(items, k) by {
                    if completes_at(items, k) && k > 0 {
                        assert(is_partial_chunk(items[0]));
                    }
                }
            },
            StreamItemView::Chunk { text, done } => {
                if done {
                    assert(completes_at(items, 0));
                } else {
                    let tail = items.skip(1);
                    lemma_success_owed(history, prompt, buffer + text, tail);
                    if end.report.result.is_ok() {
                        let k = choose|k: int| completes_at(tail, k);
                        assert forall|j: int| 0 <= j < k + 1 implies is_partial_chunk(
                            #[trigger] items[j],
                        ) by {
                            if j > 0 {
                                assert(items[j] == tail[j - 1]);
                            }
                        }
                        assert(items[k + 1] == tail[k]);
                        assert(completes_at(items, k + 1));
                    }
                    if exists|k: int| completes_at(items, k) {
                        let k = choose|k: int| completes_at(items, k);
                        assert(k > 0);
                        assert forall|j: int| 0 <= j < k - 1 implies is_partial_chunk(
                            #[trigger] tail[j],
                        ) by {
                            assert(tail[j] == items[j + 1]);
                        }
                        assert(tail[k - 1] == items[k]);
                        assert(completes_at(tail, k - 1));
                    }
                }
            },
        }
    }
}

/// Commit or nothing. A streamed turn that fails leaves the history as it
/// was. One that succeeds extends it by exactly one turn, whose reply is
/// what had arrived before, followed by everything published during the
/// run, in order.
pub proof fn lemma_commit_or_nothing(
    history: Seq<MessageView>,
    prompt: Seq<char>,
    buffer: Seq<char>,
    items: Seq<StreamItemView>,
)
    ensures
        ({
            let end = stream_run(history, prompt, buffer, items);
            &&& end.report.result.is_err() ==> end.history == history
            &&& end.report.result.is_ok() ==> end.history == with_turn(
                history,
                prompt,
                buffer + concatenated(end.report.published),
            )
        }),
    decreases items.len(),
{
    let end = stream_run(history, prompt, buffer, items);
    if items.len() > 0 {
        if let StreamItemView::Chunk { text, done } = items[0] {
            if done {
                lemma_concatenated_one(text);
            } else {
                let rest = stream_run(history, prompt, buffer + text, items.skip(1));
                lemma_commit_or_nothing(history, prompt, buffer + text, items.skip(1));
                lemma_concatenated_front(text, rest.report.published);
                assert((buffer + text) + concatenated(rest.report.published) =~= buffer
                    + (text + concatenated(rest.report.published)));
            }
        }
    }
}

/// A stream in which no chunk is marked as the last changes nothing: the
/// history after the turn is the history before it, and the turn fails as a
/// stream failure.
pub proof fn lemma_incomplete_stream_commits_nothing(
    history: Seq<MessageView>,
    prompt: Seq<char>,
    buffer: Seq<char>,
    items: Seq<StreamItemView>,
)
    requires
        forall|i: int| 0 <= i < items.len() ==> !is_final_chunk(#[trigger] items[i]),
    ensures
        stream_run(history, prompt, buffer, items).history == history,
        stream_run(history, prompt, buffer, items).report.result matches Err(
            ChatErrorView::ChatStreamFailed(_),
        ),
    decreases items.len(),
{
    if items.len() > 0 {
        assert(!is_final_chunk(items[0]));
        if let StreamItemView::Chunk { text, done } = items[0] {
            let tail = items.skip(1);
            assert forall|i: int| 0 <= i < tail.len() implies !is_final_chunk(
                #[trigger] tail[i],
            ) by {
                assert(tail[i] == items[i + 1]);
            }
            lemma_incomplete_stream_commits_nothing(history, prompt, buffer + text, tail);
        }
    }
}

/// Notifications follow the chunks. What a streamed turn publishes is, text
/// for text and in the order of arrival, the chunks at the head of the
/// stream: none is dropped, doubled or moved.
pub proof fn lemma_published_in_arrival_order(
    history: Seq<MessageView>,
    prompt: Seq<char>,
    buffer: Seq<char>,
    items: Seq<StreamItemView>,
)
    ensures
        ({
            let published = stream_run(history, prompt, buffer, items).report.published;
            &&& published.len() <= items.len()
            &&& forall|k: int|
                0 <= k < published.len() ==> carries(#[trigger] items[k], published[k])
        }),
    decreases items.len(),
{
    let published = stream_run(history, prompt, buffer, items).report.published;
    if items.len() > 0 {
        if let StreamItemView::Chunk { text, done } = items[0] {
            if !done {
                let tail = items.skip(1);
                let rest = stream_run(history, prompt, buffer + text, tail).report.published;
                lemma_published_in_arrival_order(history, prompt, buffer + text, tail);
                assert forall|k: int| 0 <= k < published.len() implies carries(
                    #[trigger] items[k],
                    published[k],
                ) by {
                    if k > 0 {
                        assert(items[k] == tail[k - 1]);
                        assert(published[k] == rest[k - 1]);
                    }
                }
            }
        }
    }
}

} // verus!

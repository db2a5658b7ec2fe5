//! What a finished turn hands back.

use vstd::prelude::*;
use crate::error::{ChatError, ChatErrorView};
use crate::message::MessageView;
use crate::model::texts;

verus! {

/// The mathematical value of a [`TurnReport`].
pub ghost struct TurnReportView {
    pub published: Seq<Seq<char>>,
    pub result: Result<(), ChatErrorView>,
}

/// The end of a turn as a whole: the history it leaves and what it reports.
pub ghost struct TurnEnd {
    pub history: Seq<MessageView>,
    pub report: TurnReportView,
}

/// The outcome of a turn's result, as a mathematical value.
pub open spec fn result_view(result: Result<(), ChatError>) -> Result<(), ChatErrorView> {
    match result {
        Ok(_) => Ok(()),
        Err(e) => Err(e@),
    }
}

/// The end of a turn: the payloads to publish on the chat event, in order,
/// and what the caller is told.
#[derive(Debug, PartialEq, Eq)]
pub struct TurnReport {
    pub published: Vec<String>,
    pub result: Result<(), ChatError>,
}

impl View for TurnReport {
    type V = TurnReportView;

    open spec fn view(&self) -> TurnReportView {
        TurnReportView { published: texts(self.published@), result: result_view(self.result) }
    }
}

} // verus!

//! The choice of an execution path from what a model declares.

use vstd::prelude::*;
use crate::model::{ModelRecordView, texts};
use crate::registry::{
    ModelCapabilityIndex, capabilities_for, first_position, knows, lemma_position, lookup,
    unique_names,
};

verus! {

/// How one turn is carried out.
#[derive(Clone, Copy, Debug, PartialEq, Eq, Structural)]
pub enum ExecutionPath {
    /// One request for vectors; the conversation is not touched.
    Embedding,
    /// A chat in which the backend may call tools before it answers.
    ToolAugmented,
    /// A chat whose answer arrives in pieces.
    PlainChat,
}

/// The capability that selects [`ExecutionPath::Embedding`].
pub open spec fn embedding_capability() -> Seq<char> {
    "embedding"@
}

/// The capability that selects [`ExecutionPath::ToolAugmented`].
pub open spec fn tools_capability() -> Seq<char> {
    "tools"@
}

/// The path for a set of declared capabilities: embedding before tools,
/// tools before plain chat.
pub open spec fn path_for(capabilities: Seq<Seq<char>>) -> ExecutionPath {
    if capabilities.contains(embedding_capability()) {
        ExecutionPath::Embedding
    } else if capabilities.contains(tools_capability()) {
        ExecutionPath::ToolAugmented
    } else {
        ExecutionPath::PlainChat
    }
}

/// The path for a model name under an index.
pub open spec fn route_of(models: Seq<ModelRecordView>, name: Seq<char>) -> ExecutionPath {
    path_for(capabilities_for(models, name))
}

/// Whether `wanted` is among `capabilities`.
pub fn declares(capabilities: &Vec<String>, wanted: &str) -> (found: bool)
    ensures
        found == texts(capabilities@).contains(wanted@),
{
    let key = wanted.to_owned();
    let mut i: usize = 0;
    while i < capabilities.len()
        invariant
            i <= capabilities.len(),
            key@ == wanted@,
            forall|j: int| 0 <= j < i ==> texts(capabilities@)[j] != wanted@,
        decreases capabilities.len() - i,
    {
        if capabilities[i] == key {
            assert(texts(capabilities@)[i as int] == wanted@);
            return true;
        }
        i += 1;
    }
    false
}

/// The path for a set of declared capabilities.
pub fn classify(capabilities: &Vec<String>) -> (path: ExecutionPath)
    ensures
        path == path_for(texts(capabilities@)),
{
    if declares(capabilities, "embedding") {
        ExecutionPath::Embedding
    } else if declares(capabilities, "tools") {
        ExecutionPath::ToolAugmented
    } else {
        ExecutionPath::PlainChat
    }
}

/// Selects the execution path of a turn. A name that the index does not
/// know declares nothing and so takes the plain chat path.
pub fn route(model_name: &str, index: &ModelCapabilityIndex) -> (path: ExecutionPath)
    ensures
        path == route_of(index@, model_name@),
{
    let capabilities = index.capabilities_of(model_name);
    classify(&capabilities)
}

/// A model that declares "embedding" takes the embedding path, whatever
/// else it declares.
pub proof fn lemma_embedding_first(models: Seq<ModelRecordView>, name: Seq<char>)
    requires
        lookup(models, name) matches Some(record) && record.capabilities.contains(
            embedding_capability(),
        ),
    ensures
        route_of(models, name) == ExecutionPath::Embedding,
{
}

/// A model that declares "tools" and not "embedding" takes the
/// tool-augmented path.
pub proof fn lemma_tools_second(models: Seq<ModelRecordView>, name: Seq<char>)
    requires
        lookup(models, name) matches Some(record) && record.capabilities.contains(
            tools_capability(),
        ) && !record.capabilities.contains(embedding_capability()),
    ensures
        route_of(models, name) == ExecutionPath::ToolAugmented,
{
}

/// Every other model takes the plain chat path: one that declares neither
/// capability, and one that the index does not know.
pub proof fn lemma_plain_otherwise(models: Seq<ModelRecordView>, name: Seq<char>)
    requires
        match lookup(models, name) {
            Some(record) => !record.capabilities.contains(embedding_capability())
                && !record.capabilities.contains(tools_capability()),
            None => true,
        },
    ensures
        route_of(models, name) == ExecutionPath::PlainChat,
{
    assert(!Seq::<Seq<char>>::empty().contains(embedding_capability()));
    assert(!Seq::<Seq<char>>::empty().contains(tools_capability()));
}

/// In an index the record at any place is the one that its name looks up, so
/// the path of a known model is decided by that record's capabilities alone.
pub proof fn lemma_route_by_record(models: Seq<ModelRecordView>, i: int)
    requires
        unique_names(models),
        0 <= i < models.len(),
    ensures
        lookup(models, models[i].name) == Some(models[i]),
        route_of(models, models[i].name) == path_for(models[i].capabilities),
{
    assert forall|j: int| 0 <= j < i implies (#[trigger] models[j]).name != models[i].name by {}
    assert(first_position(models, models[i].name, i));
    lemma_position(models, models[i].name, i);
}

/// A name that no record carries takes the plain chat path.
pub proof fn lemma_unknown_is_plain(models: Seq<ModelRecordView>, name: Seq<char>)
    requires
        !knows(models, name),
    ensures
        route_of(models, name) == ExecutionPath::PlainChat,
{
    lemma_plain_otherwise(models, name);
}

} // verus!

//! What is known of one model.

use vstd::prelude::*;

verus! {

/// The mathematical value of a [`ModelRecord`].
pub ghost struct ModelRecordView {
    pub name: Seq<char>,
    pub license: Seq<char>,
    pub parameters: Seq<char>,
    pub template: Seq<char>,
    pub model_file: Seq<char>,
    pub model_info: serde_json::Map<String, serde_json::Value>,
    pub capabilities: Seq<Seq<char>>,
}

/// The texts of a list of strings, in order.
pub open spec fn texts(strings: Seq<String>) -> Seq<Seq<char>> {
    Seq::new(strings.len(), |i: int| strings[i]@)
}

/// A model as the registry describes it. The name is its key; the
/// capabilities are those it declares.
#[derive(Debug, PartialEq)]
pub struct ModelRecord {
    pub name: String,
    pub license: String,
    pub parameters: String,
    pub template: String,
    pub model_file: String,
    pub model_info: serde_json::Map<String, serde_json::Value>,
    pub capabilities: Vec<String>,
}

impl View for ModelRecord {
    type V = ModelRecordView;

    open spec fn view(&self) -> ModelRecordView {
        ModelRecordView {
            name: self.name@,
            license: self.license@,
            parameters: self.parameters@,
            template: self.template@,
            model_file: self.model_file@,
            model_info: self.model_info,
            capabilities: texts(self.capabilities@),
        }
    }
}

/// What the backend tells of a model when asked to describe it.
#[derive(Debug, PartialEq)]
pub struct ModelDetails {
    pub license: String,
    pub parameters: String,
    pub template: String,
    pub model_file: String,
    pub model_info: serde_json::Map<String, serde_json::Value>,
    pub capabilities: Vec<String>,
}

/// The record of the model `name` with the given description.
pub open spec fn record_of(name: Seq<char>, details: ModelDetails) -> ModelRecordView {
    ModelRecordView {
        name,
        license: details.license@,
        parameters: details.parameters@,
        template: details.template@,
        model_file: details.model_file@,
        model_info: details.model_info,
        capabilities: texts(details.capabilities@),
    }
}

impl ModelRecord {
    /// The record of the model `name` with the given description.
    pub fn described(name: String, details: ModelDetails) -> (record: ModelRecord)
        ensures
            record@ == record_of(name@, details),
    {
        ModelRecord {
            name,
            license: details.license,
            parameters: details.parameters,
            template: details.template,
            model_file: details.model_file,
            model_info: details.model_info,
            capabilities: details.capabilities,
        }
    }
}

/// A model as the backend lists it.
#[derive(Debug, PartialEq, Eq)]
pub struct LocalModel {
    pub name: String,
    pub modified_at: String,
    pub size: u64,
}

/// The names of the listed models, in the order of the list.
pub open spec fn listed_names(models: Seq<LocalModel>) -> Seq<Seq<char>> {
    Seq::new(models.len(), |i: int| models[i].name@)
}

/// The names of the models that the backend listed, in the order of the
/// list.
pub fn get_model_names(models: &Vec<LocalModel>) -> (names: Vec<String>)
    ensures
        texts(names@) == listed_names(models@),
{
    let mut names: Vec<String> = Vec::new();
    let mut i: usize = 0;
    while i < models.len()
        invariant
            i <= models.len(),
            names@.len() == i,
            forall|j: int| 0 <= j < i ==> names@[j]@ == models@[j].name@,
        decreases models.len() - i,
    {
        names.push(models[i].name.clone());
        i += 1;
    }
    assert(texts(names@) =~= listed_names(models@));
    names
}

/// A copy of a list of strings.
pub fn copy_strings(strings: &Vec<String>) -> (copy: Vec<String>)
    ensures
        texts(copy@) == texts(strings@),
{
    let mut copy: Vec<String> = Vec::new();
    let mut i: usize = 0;
    while i < strings.len()
        invariant
            i <= strings.len(),
            copy@.len() == i,
            forall|j: int| 0 <= j < i ==> copy@[j]@ == strings@[j]@,
        decreases strings.len() - i,
    {
        copy.push(strings[i].clone());
        i += 1;
    }
    assert(texts(copy@) =~= texts(strings@));
    copy
}

impl Clone for ModelRecord {
    fn clone(&self) -> (copy: ModelRecord)
        ensures
            copy@ == self@,
    {
        ModelRecord {
            name: self.name.clone(),
            license: self.license.clone(),
            parameters: self.parameters.clone(),
            template: self.template.clone(),
            model_file: self.model_file.clone(),
            model_info: self.model_info.clone(),
            capabilities: copy_strings(&self.capabilities),
        }
    }
}

} // verus!

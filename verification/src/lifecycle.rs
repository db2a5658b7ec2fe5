//! Keeping the index in step with the backend: models installed, removed,
//! and found at start-up.
//!
//! Each function takes what the backend answered and does the registry's
//! part: it changes the index or leaves it, and hands back either the
//! snapshot to publish as the new model list or the failure to report.

use vstd::prelude::*;
use crate::error::{ChatError, ChatErrorView, delete_failure, download_failure, list_failure, model_info_failure};
use crate::model::{
    LocalModel, ModelDetails, ModelRecord, ModelRecordView, get_model_names, listed_names,
    record_of, texts,
};
use crate::registry::{
    ModelCapabilityIndex, knows, record_views, with_discovered, with_installed, without,
};
use crate::report::result_view;
use crate::router::declares;

verus! {

/// The names, of those listed, that the index has yet to learn about: each
/// name that is not known, once, in the order of the list.
pub open spec fn to_discover(models: Seq<ModelRecordView>, listed: Seq<Seq<char>>) -> Seq<
    Seq<char>,
>
    decreases listed.len(),
{
    if listed.len() == 0 {
        Seq::empty()
    } else {
        let earlier = to_discover(models, listed.drop_last());
        let name = listed.last();
        if knows(models, name) || earlier.contains(name) {
            earlier
        } else {
            earlier.push(name)
        }
    }
}

/// A model list or a failure, as a mathematical value.
pub open spec fn listing_view(listing: Result<Vec<ModelRecord>, ChatError>) -> Result<
    Seq<ModelRecordView>,
    ChatErrorView,
> {
    match listing {
        Ok(records) => Ok(record_views(records@)),
        Err(error) => Err(error@),
    }
}

/// A list of names or a failure, as a mathematical value.
pub open spec fn plan_view(plan: Result<Vec<String>, ChatError>) -> Result<
    Seq<Seq<char>>,
    ChatErrorView,
> {
    match plan {
        Ok(names) => Ok(texts(names@)),
        Err(error) => Err(error@),
    }
}

/// The pull of a model failed: the failure to report.
pub fn install_refused(name: &str, detail: &str) -> (error: ChatError)
    ensures
        error@ == download_failure(name@, detail@),
{
    ChatError::download_failed(name, detail)
}

/// Ends an installation once the backend was asked to describe the model
/// it pulled. A description installs the model and yields the new model
/// list; a failure leaves the index as it was.
pub fn complete_install(
    index: &mut ModelCapabilityIndex,
    name: String,
    described: Result<ModelDetails, String>,
) -> (listing: Result<Vec<ModelRecord>, ChatError>)
    ensures
        match described {
            Ok(details) => final(index)@ == with_installed(old(index)@, record_of(name@, details))
                && listing_view(listing) == Ok::<Seq<ModelRecordView>, ChatErrorView>(
                final(index)@,
            ),
            Err(detail) => final(index)@ == old(index)@ && listing_view(listing) == Err::<
                Seq<ModelRecordView>,
                ChatErrorView,
            >(model_info_failure(name@, detail@)),
        },
{
    match described {
        Ok(details) => {
            index.install(ModelRecord::described(name, details));
            Ok(index.snapshot())
        },
        Err(detail) => Err(ChatError::model_info_failed(name.as_str(), detail.as_str())),
    }
}

/// Ends a removal once the backend was asked to delete the model. Success
/// removes the model from the index and yields the new model list; a
/// failure leaves the index as it was.
pub fn complete_removal(index: &mut ModelCapabilityIndex, name: &str, deleted: Result<(), String>) -> (listing:
    Result<Vec<ModelRecord>, ChatError>)
    ensures
        match deleted {
            Ok(_) => final(index)@ == without(old(index)@, name@) && listing_view(listing) == Ok::<
                Seq<ModelRecordView>,
                ChatErrorView,
            >(final(index)@),
            Err(detail) => final(index)@ == old(index)@ && listing_view(listing) == Err::<
                Seq<ModelRecordView>,
                ChatErrorView,
            >(delete_failure(name@, detail@)),
        },
{
    match deleted {
        Ok(_) => {
            let _ = index.remove(name);
            Ok(index.snapshot())
        },
        Err(detail) => Err(ChatError::delete_failed(name, detail.as_str())),
    }
}

/// Plans the start-up discovery from the backend's model list: the names to
/// ask the backend about, or the failure where the list could not be had.
pub fn plan_discovery(index: &ModelCapabilityIndex, listed: Result<Vec<LocalModel>, String>) -> (plan:
    Result<Vec<String>, ChatError>)
    ensures
        match listed {
            Ok(models) => plan_view(plan) == Ok::<Seq<Seq<char>>, ChatErrorView>(
                to_discover(index@, listed_names(models@)),
            ),
            Err(detail) => plan_view(plan) == Err::<Seq<Seq<char>>, ChatErrorView>(
                list_failure(detail@),
            ),
        },
{
    match listed {
        Err(detail) => Err(ChatError::list_failed(detail.as_str())),
        Ok(models) => {
            let names = get_model_names(&models);
            let mut plan: Vec<String> = Vec::new();
            let mut i: usize = 0;
            assert(texts(names@).take(0) =~= Seq::<Seq<char>>::empty());
            assert(texts(plan@) =~= Seq::<Seq<char>>::empty());
            while i < names.len()
                invariant
                    i <= names.len(),
                    texts(plan@) == to_discover(index@, texts(names@).take(i as int)),
                decreases names.len() - i,
            {
                let ghost before = texts(plan@);
                proof {
                    let next = texts(names@).take(i + 1);
                    assert(next.drop_last() =~= texts(names@).take(i as int));
                    assert(next.last() == names@[i as int]@);
                }
                if !index.contains(names[i].as_str()) && !declares(&plan, names[i].as_str()) {
                    plan.push(names[i].clone());
                    assert(texts(plan@) =~= before.push(names@[i as int]@));
                }
                i += 1;
            }
            assert(texts(names@).take(i as int) =~= texts(names@));
            Ok(plan)
        },
    }
}

/// Takes in the backend's description of one model found at start-up. A
/// description is recorded unless the name is known already; a failure
/// leaves the index as it was.
pub fn complete_discovery(
    index: &mut ModelCapabilityIndex,
    name: String,
    described: Result<ModelDetails, String>,
) -> (outcome: Result<(), ChatError>)
    ensures
        match described {
            Ok(details) => final(index)@ == with_discovered(old(index)@, record_of(name@, details))
                && result_view(outcome) == Ok::<(), ChatErrorView>(()),
            Err(detail) => final(index)@ == old(index)@ && result_view(outcome) == Err::<
                (),
                ChatErrorView,
            >(model_info_failure(name@, detail@)),
        },
{
    match described {
        Ok(details) => {
            let _ = index.discover(ModelRecord::described(name, details));
            Ok(())
        },
        Err(detail) => Err(ChatError::model_info_failed(name.as_str(), detail.as_str())),
    }
}

} // verus!

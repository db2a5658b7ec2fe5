//! The index of known models and what each of them declares it can do.

use vstd::prelude::*;
use crate::model::{ModelRecord, ModelRecordView, texts, copy_strings};

verus! {

/// The mathematical values of a run of records, in order.
pub open spec fn record_views(records: Seq<ModelRecord>) -> Seq<ModelRecordView> {
    Seq::new(records.len(), |i: int| records[i]@)
}

/// Some record of `models` carries `name`.
pub open spec fn knows(models: Seq<ModelRecordView>, name: Seq<char>) -> bool {
    exists|i: int| 0 <= i < models.len() && (#[trigger] models[i]).name == name
}

/// `i` is the place of the first record of `models` that carries `name`.
pub open spec fn first_position(models: Seq<ModelRecordView>, name: Seq<char>, i: int) -> bool {
    &&& 0 <= i < models.len()
    &&& models[i].name == name
    &&& forall|j: int| 0 <= j < i ==> (#[trigger] models[j]).name != name
}

/// The place of the first record that carries `name`; meaningful where one does.
pub open spec fn position_of(models: Seq<ModelRecordView>, name: Seq<char>) -> int {
    choose|i: int| first_position(models, name, i)
}

/// No two records carry the same name.
pub open spec fn unique_names(models: Seq<ModelRecordView>) -> bool {
    forall|i: int, j: int|
        0 <= i < j < models.len() ==> (#[trigger] models[i]).name != (#[trigger] models[j]).name
}

/// The record that carries `name`, if there is one.
pub open spec fn lookup(models: Seq<ModelRecordView>, name: Seq<char>) -> Option<ModelRecordView> {
    if knows(models, name) {
        Some(models[position_of(models, name)])
    } else {
        None
    }
}

/// The capabilities declared under `name`; none for a name that is not known.
pub open spec fn capabilities_for(models: Seq<ModelRecordView>, name: Seq<char>) -> Seq<Seq<char>> {
    match lookup(models, name) {
        Some(record) => record.capabilities,
        None => Seq::empty(),
    }
}

/// The index after `record` was installed: it takes the place of the record
/// of the same name, or comes last where the name is new.
pub open spec fn with_installed(models: Seq<ModelRecordView>, record: ModelRecordView) -> Seq<
    ModelRecordView,
> {
    if knows(models, record.name) {
        models.update(position_of(models, record.name), record)
    } else {
        models.push(record)
    }
}

/// The index after `record` was discovered: it comes last where the name is
/// new, and is dropped where the name is known already.
pub open spec fn with_discovered(models: Seq<ModelRecordView>, record: ModelRecordView) -> Seq<
    ModelRecordView,
> {
    if knows(models, record.name) {
        models
    } else {
        models.push(record)
    }
}

/// The index after the record that carries `name` was removed.
pub open spec fn without(models: Seq<ModelRecordView>, name: Seq<char>) -> Seq<ModelRecordView> {
    if knows(models, name) {
        models.remove(position_of(models, name))
    } else {
        models
    }
}

/// Where a name is known, it has a first place, and only one.
pub proof fn lemma_position(models: Seq<ModelRecordView>, name: Seq<char>, i: int)
    requires
        first_position(models, name, i),
    ensures
        knows(models, name),
        position_of(models, name) == i,
        lookup(models, name) == Some(models[i]),
{
    let p = position_of(models, name);
    assert(first_position(models, name, p));
    if p < i {
        assert(models[p].name != name);
    } else if i < p {
        assert(models[i].name != name);
    }
}

/// A name that is known has a first place.
pub proof fn lemma_known_has_position(models: Seq<ModelRecordView>, name: Seq<char>)
    requires
        knows(models, name),
    ensures
        first_position(models, name, position_of(models, name)),
{
    let k = choose|k: int| 0 <= k < models.len() && (#[trigger] models[k]).name == name;
    lemma_first_up_to(models, name, k);
}

proof fn lemma_first_up_to(models: Seq<ModelRecordView>, name: Seq<char>, k: int)
    requires
        0 <= k < models.len(),
        models[k].name == name,
    ensures
        exists|i: int| first_position(models, name, i),
    decreases k,
{
    if forall|j: int| 0 <= j < k ==> (#[trigger] models[j]).name != name {
        assert(first_position(models, name, k));
    } else {
        let j = choose|j: int| 0 <= j < k && (#[trigger] models[j]).name == name;
        lemma_first_up_to(models, name, j);
    }
}

/// The known models, each under a name of its own.
#[derive(Debug)]
pub struct ModelCapabilityIndex {
    models: Vec<ModelRecord>,
}

impl View for ModelCapabilityIndex {
    type V = Seq<ModelRecordView>;

    closed spec fn view(&self) -> Seq<ModelRecordView> {
        record_views(self.models@)
    }
}

impl ModelCapabilityIndex {
    #[verifier::type_invariant]
    spec fn keyed_by_name(&self) -> bool {
        unique_names(record_views(self.models@))
    }

    /// The index that knows no model.
    pub fn new() -> (index: ModelCapabilityIndex)
        ensures
            index@ == Seq::<ModelRecordView>::empty(),
    {
        ModelCapabilityIndex { models: Vec::new() }
    }

    /// Number of models known.
    pub fn len(&self) -> (n: usize)
        ensures
            n == self@.len(),
            unique_names(self@),
    {
        proof {
            use_type_invariant(self);
        }
        self.models.len()
    }

    /// Where the record that carries `name` stands.
    fn find(&self, name: &String) -> (found: Option<usize>)
        ensures
            match found {
                Some(i) => first_position(self@, name@, i as int),
                None => !knows(self@, name@),
            },
    {
        let mut i: usize = 0;
        while i < self.models.len()
            invariant
                i <= self.models.len(),
                forall|j: int| 0 <= j < i ==> (#[trigger] record_views(self.models@)[j]).name != name@,
            decreases self.models.len() - i,
        {
            if self.models[i].name == *name {
                return Some(i);
            }
            i += 1;
        }
        None
    }

    /// Whether a model of that name is known.
    pub fn contains(&self, name: &str) -> (known: bool)
        ensures
            known == knows(self@, name@),
    {
        let key = name.to_owned();
        let found = self.find(&key);
        proof {
            if let Some(i) = found {
                lemma_position(self@, name@, i as int);
            }
        }
        found.is_some()
    }

    /// A copy of the record that carries `name`.
    pub fn describe(&self, name: &str) -> (record: Option<ModelRecord>)
        ensures
            match record {
                Some(r) => lookup(self@, name@) == Some(r@),
                None => lookup(self@, name@).is_none(),
            },
    {
        let key = name.to_owned();
        match self.find(&key) {
            Some(i) => {
                proof {
                    lemma_position(self@, name@, i as int);
                }
                Some(self.models[i].clone())
            },
            None => None,
        }
    }

    /// The capabilities that the model of that name declares. A name that is
    /// not known declares none.
    pub fn capabilities_of(&self, name: &str) -> (capabilities: Vec<String>)
        ensures
            texts(capabilities@) == capabilities_for(self@, name@),
    {
        let key = name.to_owned();
        match self.find(&key) {
            Some(i) => {
                proof {
                    lemma_position(self@, name@, i as int);
                }
                copy_strings(&self.models[i].capabilities)
            },
            None => {
                let none: Vec<String> = Vec::new();
                assert(texts(none@) =~= Seq::<Seq<char>>::empty());
                none
            },
        }
    }

    /// A copy of all records, in the order of the index.
    pub fn snapshot(&self) -> (copy: Vec<ModelRecord>)
        ensures
            record_views(copy@) == self@,
            unique_names(self@),
    {
        proof {
            use_type_invariant(self);
        }
        let mut copy: Vec<ModelRecord> = Vec::new();
        let mut i: usize = 0;
        while i < self.models.len()
            invariant
                i <= self.models.len(),
                copy@.len() == i,
                forall|j: int| 0 <= j < i ==> copy@[j]@ == self.models@[j]@,
            decreases self.models.len() - i,
        {
            copy.push(self.models[i].clone());
            i += 1;
        }
        assert(record_views(copy@) =~= record_views(self.models@));
        copy
    }

    /// Takes the records out, leaving the index empty for the moment.
    fn take_records(&mut self) -> (records: Vec<ModelRecord>)
        ensures
            record_views(records@) == old(self)@,
            unique_names(old(self)@),
    {
        proof {
            use_type_invariant(&*self);
        }
        let mut taken = ModelCapabilityIndex { models: Vec::new() };
        core::mem::swap(self, &mut taken);
        taken.models
    }

    /// Installs a model. A record of the same name is replaced as a whole and
    /// keeps its place; a new name comes last.
    pub fn install(&mut self, record: ModelRecord)
        ensures
            final(self)@ == with_installed(old(self)@, record@),
    {
        let found = self.find(&record.name);
        let mut records = self.take_records();
        let ghost before = record_views(records@);
        match found {
            Some(i) => {
                proof {
                    lemma_position(before, record@.name, i as int);
                }
                records.set(i, record);
                proof {
                    assert(record_views(records@) =~= before.update(i as int, record@));
                    lemma_update_keeps_names(before, record@, i as int);
                }
            },
            None => {
                records.push(record);
                proof {
                    assert(record_views(records@) =~= before.push(record@));
                    lemma_new_name_keeps_names(before, record@);
                }
            },
        }
        *self = ModelCapabilityIndex { models: records };
    }

    /// Records a model found on the backend. A name that is known already
    /// keeps the record it has; the answer says whether the record was taken.
    pub fn discover(&mut self, record: ModelRecord) -> (added: bool)
        ensures
            added == !knows(old(self)@, record@.name),
            final(self)@ == with_discovered(old(self)@, record@),
    {
        let found = self.find(&record.name);
        match found {
            Some(i) => {
                proof {
                    lemma_position(self@, record@.name, i as int);
                }
                false
            },
            None => {
                let mut records = self.take_records();
                let ghost before = record_views(records@);
                records.push(record);
                proof {
                    assert(record_views(records@) =~= before.push(record@));
                    lemma_new_name_keeps_names(before, record@);
                }
                *self = ModelCapabilityIndex { models: records };
                true
            },
        }
    }

    /// Removes the model of that name; the others keep their order. The
    /// answer says whether there was one.
    pub fn remove(&mut self, name: &str) -> (removed: bool)
        ensures
            removed == knows(old(self)@, name@),
            final(self)@ == without(old(self)@, name@),
            !knows(final(self)@, name@),
    {
        let key = name.to_owned();
        let found = self.find(&key);
        match found {
            Some(i) => {
                let mut records = self.take_records();
                let ghost before = record_views(records@);
                proof {
                    lemma_position(before, name@, i as int);
                }
                let _ = records.remove(i);
                proof {
                    assert(record_views(records@) =~= before.remove(i as int));
                    lemma_removed_is_gone(before, name@);
                }
                *self = ModelCapabilityIndex { models: records };
                true
            },
            None => false,
        }
    }
}

/// Replacing a record by one of the same name keeps the names apart.
pub proof fn lemma_update_keeps_names(models: Seq<ModelRecordView>, record: ModelRecordView, i: int)
    requires
        unique_names(models),
        0 <= i < models.len(),
        models[i].name == record.name,
    ensures
        unique_names(models.update(i, record)),
{
    let next = models.update(i, record);
    assert forall|a: int, b: int| 0 <= a < b < next.len() implies (#[trigger] next[a]).name != (
    #[trigger] next[b]).name by {
        assert(next[a].name == models[a].name);
        assert(next[b].name == models[b].name);
    }
}

/// Appending a record under a new name keeps the names apart.
pub proof fn lemma_new_name_keeps_names(models: Seq<ModelRecordView>, record: ModelRecordView)
    requires
        unique_names(models),
        !knows(models, record.name),
    ensures
        unique_names(models.push(record)),
{
    let next = models.push(record);
    assert forall|a: int, b: int| 0 <= a < b < next.len() implies (#[trigger] next[a]).name != (
    #[trigger] next[b]).name by {
        assert(next[a] == models[a]);
        if b < models.len() {
            assert(next[b] == models[b]);
        }
    }
}

/// After a removal the name is known no more, and the names stay apart.
pub proof fn lemma_removed_is_gone(models: Seq<ModelRecordView>, name: Seq<char>)
    requires
        unique_names(models),
    ensures
        !knows(without(models, name), name),
        unique_names(without(models, name)),
{
    if knows(models, name) {
        lemma_known_has_position(models, name);
        let p = position_of(models, name);
        let rest = models.remove(p);
        assert forall|a: int| 0 <= a < rest.len() implies (#[trigger] rest[a]).name != name by {
            if a < p {
                assert(rest[a] == models[a]);
            } else {
                assert(rest[a] == models[a + 1]);
            }
        }
        assert forall|a: int, b: int| 0 <= a < b < rest.len() implies (#[trigger] rest[a]).name != (
        #[trigger] rest[b]).name by {
            let a0 = if a < p { a } else { a + 1 };
            let b0 = if b < p { b } else { b + 1 };
            assert(rest[a] == models[a0]);
            assert(rest[b] == models[b0]);
        }
    }
}

} // verus!

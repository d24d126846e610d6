//! The persisted contract state, in its two schema generations.
//!
//! [`StatusMessage`] is the current generation: the owner identity, the
//! record mapping from caller identity to latest status string, and two
//! fields reserved for future use (`num_records`, `last_record`).
//! [`PrevStatusMessage`] is the prior generation, which lacks the reserved
//! fields; [`StatusMessage::migrate`] carries its owner and records forward
//! unchanged and initializes the reserved fields.

use vstd::prelude::*;

use crate::store::StrMap;

verus! {

/// The mathematical model of a prior-generation state: the owner identity
/// and the record mapping.
pub ghost struct PrevStateModel {
    pub owner_id: Seq<char>,
    pub records: Map<Seq<char>, Seq<char>>,
}

/// The mathematical model of a current-generation state.
pub ghost struct StateModel {
    pub owner_id: Seq<char>,
    pub records: Map<Seq<char>, Seq<char>>,
    pub num_records: Map<Seq<char>, u64>,
    pub last_record: Seq<char>,
}

/// The state that fresh initialization with `owner_id` constructs: empty
/// records, empty counter table, empty last record.
pub open spec fn fresh_state(owner_id: Seq<char>) -> StateModel {
    StateModel {
        owner_id,
        records: Map::empty(),
        num_records: Map::empty(),
        last_record: Seq::empty(),
    }
}

/// The state that migration of a prior-generation state constructs: owner
/// and records carried forward unchanged, reserved fields initialized empty.
pub open spec fn migrated_state(prev: PrevStateModel) -> StateModel {
    StateModel {
        owner_id: prev.owner_id,
        records: prev.records,
        num_records: Map::empty(),
        last_record: Seq::empty(),
    }
}

/// What a status write does to the state: it binds the *caller's own*
/// identity to `message`, overwriting any earlier binding, and touches
/// nothing else.
pub open spec fn set_status_model(s: StateModel, caller: Seq<char>, message: Seq<char>) -> StateModel {
    StateModel {
        owner_id: s.owner_id,
        records: s.records.insert(caller, message),
        num_records: s.num_records,
        last_record: s.last_record,
    }
}

/// What a status lookup returns: the stored value if the key is present,
/// an explicit absence otherwise. A miss is a normal outcome, not a failure.
pub open spec fn get_status_model(s: StateModel, key: Seq<char>) -> Option<Seq<char>> {
    if s.records.contains_key(key) {
        Some(s.records[key])
    } else {
        None
    }
}

/// The prior schema generation of the persisted state.
pub struct PrevStatusMessage {
    owner_id: String,
    records: StrMap<String>,
}

impl View for PrevStatusMessage {
    type V = PrevStateModel;

    closed spec fn view(&self) -> PrevStateModel {
        PrevStateModel { owner_id: self.owner_id@, records: self.records@ }
    }
}

impl PrevStatusMessage {
    /// The representation invariant of the prior generation.
    pub closed spec fn wf(&self) -> bool {
        self.records.wf()
    }

    /// A prior-generation state with the given owner and records, as a
    /// pre-existing deployment would hold it.
    pub fn new(owner_id: String, records: StrMap<String>) -> (r: Self)
        requires
            records.wf(),
        ensures
            r.wf(),
            r@ == (PrevStateModel { owner_id: owner_id@, records: records@ }),
    {
        PrevStatusMessage { owner_id, records }
    }
}

/// The current schema generation of the persisted state.
pub struct StatusMessage {
    owner_id: String,
    records: StrMap<String>,
    num_records: StrMap<u64>,
    last_record: String,
}

impl View for StatusMessage {
    type V = StateModel;

    closed spec fn view(&self) -> StateModel {
        StateModel {
            owner_id: self.owner_id@,
            records: self.records@,
            num_records: self.num_records@,
            last_record: self.last_record@,
        }
    }
}

impl StatusMessage {
    /// The representation invariant of the current generation.
    pub closed spec fn wf(&self) -> bool {
        self.records.wf() && self.num_records.wf()
    }

    /// Fresh initialization: an empty state owned by `owner_id`.
    pub fn new(owner_id: String) -> (r: Self)
        ensures
            r.wf(),
            r@ == fresh_state(owner_id@),
    {
        StatusMessage {
            owner_id,
            records: StrMap::new(),
            num_records: StrMap::new(),
            last_record: String::new(),
        }
    }

    /// A current-generation state assembled from its four fields, as the
    /// host re-hydrates it from persisted storage.
    pub fn from_parts(
        owner_id: String,
        records: StrMap<String>,
        num_records: StrMap<u64>,
        last_record: String,
    ) -> (r: Self)
        requires
            records.wf(),
            num_records.wf(),
        ensures
            r.wf(),
            r@ == (StateModel {
                owner_id: owner_id@,
                records: records@,
                num_records: num_records@,
                last_record: last_record@,
            }),
    {
        StatusMessage { owner_id, records, num_records, last_record }
    }

    /// The one-shot schema migration: carries `owner_id` and `records`
    /// forward exactly, initializes `num_records` to an empty mapping and
    /// `last_record` to the empty string.
    pub fn migrate(prev: PrevStatusMessage) -> (r: Self)
        requires
            prev.wf(),
        ensures
            r.wf(),
            r@ == migrated_state(prev@),
    {
        StatusMessage {
            owner_id: prev.owner_id,
            records: prev.records,
            num_records: StrMap::new(),
            last_record: String::new(),
        }
    }

    /// Records `message` as the latest status of `caller`, overwriting any
    /// earlier status of the same caller. The key written is the caller's
    /// own identity, never an identity chosen by the message.
    pub fn set_status(&mut self, caller: String, message: String)
        requires
            old(self).wf(),
        ensures
            final(self).wf(),
            final(self)@ == set_status_model(old(self)@, caller@, message@),
    {
        self.records.insert(caller, message);
    }

    /// Returns the status stored for `account_id`, or `None` if that
    /// identity has never been written.
    pub fn get_status(&self, account_id: String) -> (r: Option<String>)
        requires
            self.wf(),
        ensures
            match r {
                Some(m) => get_status_model(self@, account_id@) == Some(m@),
                None => get_status_model(self@, account_id@) is None,
            },
    {
        match self.records.get(&account_id) {
            Some(m) => Some(m.clone()),
            None => None,
        }
    }

    /// The identity that initialized or migrated this state; no operation
    /// mutates it afterwards.
    pub fn owner_id(&self) -> (r: &String)
        ensures
            r@ == self@.owner_id,
    {
        &self.owner_id
    }

    /// The record mapping from caller identity to latest status string.
    pub fn records(&self) -> (r: &StrMap<String>)
        requires
            self.wf(),
        ensures
            r.wf(),
            r@ == self@.records,
    {
        &self.records
    }

    /// The counter table reserved for future use; no operation in this core
    /// populates or reads it.
    pub fn num_records(&self) -> (r: &StrMap<u64>)
        requires
            self.wf(),
        ensures
            r.wf(),
            r@ == self@.num_records,
    {
        &self.num_records
    }

    /// The record field reserved for future use; empty in the current
    /// generation.
    pub fn last_record(&self) -> (r: &String)
        ensures
            r@ == self@.last_record,
    {
        &self.last_record
    }
}

/// After fresh initialization, a status written by caller `a` is exactly
/// what a lookup of `a` returns.
pub proof fn lemma_fresh_set_then_get(owner: Seq<char>, a: Seq<char>, m: Seq<char>)
    ensures
        get_status_model(set_status_model(fresh_state(owner), a, m), a) == Some(m),
{
}

/// An identity that is not in the records reads back as an explicit
/// absence, never as a default value.
pub proof fn lemma_get_unwritten(s: StateModel, a: Seq<char>)
    requires
        !s.records.contains_key(a),
    ensures
        get_status_model(s, a) is None,
{
}

/// Writes overwrite: after two writes by the same caller, a lookup returns
/// the second message.
pub proof fn lemma_set_overwrites(s: StateModel, a: Seq<char>, m1: Seq<char>, m2: Seq<char>)
    ensures
        get_status_model(set_status_model(set_status_model(s, a, m1), a, m2), a) == Some(m2),
{
}

/// Migration preserves every existing record exactly, and the owner
/// identity with them: a lookup after migration returns what the prior
/// generation held.
pub proof fn lemma_migrate_preserves_records(prev: PrevStateModel, a: Seq<char>)
    ensures
        migrated_state(prev).owner_id == prev.owner_id,
        migrated_state(prev).records == prev.records,
        get_status_model(migrated_state(prev), a) == (if prev.records.contains_key(a) {
            Some(prev.records[a])
        } else {
            None::<Seq<char>>
        }),
{
}

} // verus!

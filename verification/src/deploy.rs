//! The per-deployment lifecycle: initialization guard and migration
//! controller.
//!
//! A deployment's persisted state is in exactly one of three shapes: nothing
//! persisted yet, bytes in the prior schema generation, or bytes in the
//! current generation. [`Deployment`] models that state together with the
//! transitions the host may trigger: fresh initialization, the one-shot
//! migration, and the two accessors. Exactly one of fresh-init and migrate
//! succeeds per deployment, and only from the shape it presumes; every other
//! attempt fails and leaves the persisted state untouched, the
//! all-or-nothing behaviour the host guarantees for a failed call.

use vstd::prelude::*;

use crate::state::PrevStateModel;
use crate::state::PrevStatusMessage;
use crate::state::StateModel;
use crate::state::StatusMessage;
use crate::state::fresh_state;
use crate::state::get_status_model;
use crate::state::migrated_state;
use crate::state::set_status_model;

verus! {

/// The shape of the bytes a deployment has persisted.
pub enum Persisted {
    /// Nothing persisted: the contract was never initialized.
    Absent,
    /// State laid out in the prior schema generation.
    OldGen(PrevStatusMessage),
    /// State laid out in the current schema generation.
    Current(StatusMessage),
}

/// The mathematical model of a deployment's persisted state.
pub ghost enum PersistedModel {
    Absent,
    OldGen(PrevStateModel),
    Current(StateModel),
}

/// How a call fails. Every variant aborts the whole invocation; the host
/// then discards all state changes of that call.
#[derive(Clone, Copy, Debug, PartialEq, Eq)]
pub enum CallError {
    /// An operation that presumes persisted state found none.
    NotInitialized,
    /// Fresh initialization found state already persisted.
    AlreadyInitialized,
    /// The persisted bytes do not match the layout the operation reads.
    SchemaMismatch,
}

/// One deployed contract instance and the state it has persisted.
pub struct Deployment {
    persisted: Persisted,
}

impl View for Deployment {
    type V = PersistedModel;

    closed spec fn view(&self) -> PersistedModel {
        match self.persisted {
            Persisted::Absent => PersistedModel::Absent,
            Persisted::OldGen(p) => PersistedModel::OldGen(p@),
            Persisted::Current(s) => PersistedModel::Current(s@),
        }
    }
}

impl Deployment {
    /// The representation invariant of whatever state is persisted.
    pub closed spec fn wf(&self) -> bool {
        match self.persisted {
            Persisted::Absent => true,
            Persisted::OldGen(p) => p.wf(),
            Persisted::Current(s) => s.wf(),
        }
    }

    /// A deployment on which nothing has ever been persisted.
    pub fn fresh() -> (r: Self)
        ensures
            r.wf(),
            r@ is Absent,
    {
        Deployment { persisted: Persisted::Absent }
    }

    /// A deployment that already persisted state in the prior schema
    /// generation, as one deployed before the current generation existed.
    pub fn with_old_generation(prev: PrevStatusMessage) -> (r: Self)
        requires
            prev.wf(),
        ensures
            r.wf(),
            r@ == PersistedModel::OldGen(prev@),
    {
        Deployment { persisted: Persisted::OldGen(prev) }
    }

    /// Fresh initialization. Succeeds exactly when nothing is persisted yet
    /// and persists an empty state owned by `owner_id`; on a deployment that
    /// already holds state, in either generation, it fails and changes
    /// nothing.
    pub fn call_new(&mut self, owner_id: String) -> (r: Result<(), CallError>)
        requires
            old(self).wf(),
        ensures
            final(self).wf(),
            old(self)@ is Absent ==> r is Ok && final(self)@ == PersistedModel::Current(
                fresh_state(owner_id@),
            ),
            !(old(self)@ is Absent) ==> r == Err::<(), CallError>(CallError::AlreadyInitialized)
                && final(self)@ == old(self)@,
    {
        match &self.persisted {
            Persisted::Absent => {
                self.persisted = Persisted::Current(StatusMessage::new(owner_id));
                Ok(())
            },
            _ => Err(CallError::AlreadyInitialized),
        }
    }

    /// The one-shot migration. Succeeds exactly when the persisted bytes are
    /// in the prior generation and replaces them with the migrated state;
    /// with nothing persisted it fails, and persists nothing; with
    /// current-generation bytes the read under the old layout fails as a
    /// schema mismatch, so a second migration is rejected rather than
    /// silently re-applied.
    pub fn call_migrate(&mut self) -> (r: Result<(), CallError>)
        requires
            old(self).wf(),
        ensures
            final(self).wf(),
            (old(self)@ matches PersistedModel::OldGen(p) ==> r is Ok && final(self)@
                == PersistedModel::Current(migrated_state(p))),
            old(self)@ is Absent ==> r == Err::<(), CallError>(CallError::NotInitialized)
                && final(self)@ == old(self)@,
            old(self)@ is Current ==> r == Err::<(), CallError>(CallError::SchemaMismatch)
                && final(self)@ == old(self)@,
    {
        let mut taken = Persisted::Absent;
        core::mem::swap(&mut self.persisted, &mut taken);
        match taken {
            Persisted::OldGen(prev) => {
                self.persisted = Persisted::Current(StatusMessage::migrate(prev));
                Ok(())
            },
            Persisted::Absent => Err(CallError::NotInitialized),
            Persisted::Current(s) => {
                self.persisted = Persisted::Current(s);
                Err(CallError::SchemaMismatch)
            },
        }
    }

    /// A status write by `caller`. On an initialized, current-generation
    /// deployment it always succeeds and overwrites the caller's own record;
    /// on any other deployment the state load fails fatally and nothing is
    /// persisted.
    pub fn call_set_status(&mut self, caller: String, message: String) -> (r: Result<
        (),
        CallError,
    >)
        requires
            old(self).wf(),
        ensures
            final(self).wf(),
            (old(self)@ matches PersistedModel::Current(s) ==> r is Ok && final(self)@
                == PersistedModel::Current(set_status_model(s, caller@, message@))),
            old(self)@ is Absent ==> r == Err::<(), CallError>(CallError::NotInitialized)
                && final(self)@ == old(self)@,
            old(self)@ is OldGen ==> r == Err::<(), CallError>(CallError::SchemaMismatch)
                && final(self)@ == old(self)@,
    {
        match &mut self.persisted {
            Persisted::Current(s) => {
                s.set_status(caller, message);
                Ok(())
            },
            Persisted::Absent => Err(CallError::NotInitialized),
            Persisted::OldGen(_) => Err(CallError::SchemaMismatch),
        }
    }

    /// A status lookup. On an initialized, current-generation deployment it
    /// returns the stored value or an explicit absence; on any other
    /// deployment the state load fails fatally rather than answering from a
    /// default-valued state.
    pub fn call_get_status(&self, account_id: String) -> (r: Result<Option<String>, CallError>)
        requires
            self.wf(),
        ensures
            (self@ matches PersistedModel::Current(s) ==> match r {
                Ok(Some(m)) => get_status_model(s, account_id@) == Some(m@),
                Ok(None) => get_status_model(s, account_id@) is None,
                Err(_) => false,
            }),
            self@ is Absent ==> r == Err::<Option<String>, CallError>(CallError::NotInitialized),
            self@ is OldGen ==> r == Err::<Option<String>, CallError>(CallError::SchemaMismatch),
    {
        match &self.persisted {
            Persisted::Current(s) => Ok(s.get_status(account_id)),
            Persisted::Absent => Err(CallError::NotInitialized),
            Persisted::OldGen(_) => Err(CallError::SchemaMismatch),
        }
    }
}

} // verus!

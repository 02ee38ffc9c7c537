//! The sanction store: the single source of truth for "is this subject
//! currently restricted".
//!
//! Its atomic find-and-delete is the one arbitration point between a
//! scheduled expiry and a concurrent manual unmute: whichever of the two
//! removes the record owns the restoration, and the other sees nothing.

use std::collections::HashMap;
use vstd::prelude::*;

use crate::record::{RecordView, SanctionRecord};

verus! {

broadcast use vstd::std_specs::hash::group_hash_axioms;

/// An in-memory record store keyed by subject, holding at most one active
/// record per subject. A deployment that needs durability puts a database
/// behind the same contract; this store is also the double that the tests
/// race the expiry and manual-unmute paths against.
pub struct SanctionStore {
    records: HashMap<u64, SanctionRecord>,
}

impl SanctionStore {
    /// The store as a map from subject to the record held for it.
    pub closed spec fn view(&self) -> Map<u64, RecordView> {
        self.records@.map_values(|r: SanctionRecord| r@)
    }

    /// Every record is filed under its own subject.
    pub open spec fn wf(&self) -> bool {
        forall|s: u64| self@.contains_key(s) ==> (#[trigger] self@[s]).subject_id == s
    }

    pub fn new() -> (store: Self)
        ensures
            store.wf(),
            store@ == Map::<u64, RecordView>::empty(),
    {
        let store = SanctionStore { records: HashMap::new() };
        proof {
            assert(store@ =~= Map::<u64, RecordView>::empty());
        }
        store
    }

    /// Files a new record. Uniqueness of the active sanction per subject is
    /// the caller's responsibility, so a record for the subject must not
    /// already be present.
    pub fn insert(&mut self, record: SanctionRecord)
        requires
            old(self).wf(),
            !old(self)@.contains_key(record.subject_id),
        ensures
            final(self).wf(),
            final(self)@ == old(self)@.insert(record@.subject_id, record@),
    {
        let subject = record.subject_id;
        let ghost rv = record@;
        self.records.insert(subject, record);
        proof {
            assert(final(self)@ =~= old(self)@.insert(subject, rv));
        }
    }

    /// Point lookup, used by the rejoin reconciler. Absence is not an error.
    pub fn find_by_subject(&self, subject: u64) -> (found: Option<&SanctionRecord>)
        ensures
            match found {
                Some(record) => self@.contains_key(subject) && record@ == self@[subject],
                None => !self@.contains_key(subject),
            },
    {
        self.records.get(&subject)
    }

    /// Atomically locates and removes the record for a subject, returning the
    /// removed record if one existed. At most one caller ever gets the record
    /// out: this is what keeps resolution exactly-once.
    pub fn find_and_delete(&mut self, subject: u64) -> (removed: Option<SanctionRecord>)
        requires
            old(self).wf(),
        ensures
            final(self).wf(),
            final(self)@ == old(self)@.remove(subject),
            match removed {
                Some(record) => {
                    &&& old(self)@.contains_key(subject)
                    &&& record@ == old(self)@[subject]
                    &&& record.subject_id == subject
                },
                None => !old(self)@.contains_key(subject) && final(self)@ == old(self)@,
            },
    {
        let removed = self.records.remove(&subject);
        proof {
            assert(final(self)@ =~= old(self)@.remove(subject));
            if removed is None {
                assert(final(self)@ =~= old(self)@);
            }
        }
        removed
    }

    /// Whether a record for the subject is on file.
    pub fn contains_subject(&self, subject: u64) -> (present: bool)
        ensures
            present == self@.contains_key(subject),
    {
        self.records.contains_key(&subject)
    }

    /// How many sanctions are active.
    pub fn len(&self) -> (n: usize)
        ensures
            n == self@.len(),
    {
        proof {
            assert(self@.dom() =~= self.records@.dom());
        }
        self.records.len()
    }
}

} // verus!

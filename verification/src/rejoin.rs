//! Rejoin reconciliation: when a subject re-enters the community while a
//! record is still on file — the member left and returned before the timer
//! fired, or a restart lost the timer — the restriction is re-applied so the
//! subject does not regain access prematurely.
//!
//! This path is read-only with respect to the store and the scheduler: it
//! never deletes a record and never arms or disarms a timer, which is what
//! makes replaying rejoin events safe.

use vstd::prelude::*;

use crate::directory::{apply_call, DirectoryCall};
use crate::outcome::RejoinOutcome;
use crate::record::RecordView;
use crate::store::SanctionStore;

verus! {

/// The one directory call a rejoin owes: re-add the record's restricted role
/// when a record is on file, nothing otherwise.
pub open spec fn rejoin_call(records: Map<u64, RecordView>, subject: u64) -> Option<
    DirectoryCall,
> {
    if records.contains_key(subject) {
        Some(DirectoryCall::AddRole(subject, records[subject].restricted_role_id))
    } else {
        None
    }
}

/// Looks the subject up and decides whether the restricted role must come
/// back. The store is only read: the record, if any, stays on file, so a
/// later expiry fire still attempts the restoration.
pub fn on_rejoin(store: &SanctionStore, subject: u64) -> (call: Option<DirectoryCall>)
    ensures
        call == rejoin_call(store@, subject),
{
    match store.find_by_subject(subject) {
        Some(record) => Some(DirectoryCall::AddRole(subject, record.restricted_role_id)),
        None => None,
    }
}

/// The reported outcome of a rejoin, from whether a record was on file and,
/// if so, how the directory call went. A directory failure never drops the
/// sanction: the record is still on file.
pub fn rejoin_outcome(sanctioned: bool, reapplied_ok: Option<bool>) -> (outcome: RejoinOutcome)
    requires
        sanctioned <==> reapplied_ok is Some,
    ensures
        !sanctioned ==> outcome == RejoinOutcome::NotSanctioned,
        reapplied_ok == Some(true) ==> outcome == RejoinOutcome::Reapplied,
        reapplied_ok == Some(false) ==> outcome == RejoinOutcome::Failed,
{
    match reapplied_ok {
        None => RejoinOutcome::NotSanctioned,
        Some(true) => RejoinOutcome::Reapplied,
        Some(false) => RejoinOutcome::Failed,
    }
}

/// A member's role set after performing a rejoin's call, if it owed one.
pub open spec fn apply_rejoin(roles: Set<u64>, call: Option<DirectoryCall>) -> Set<u64> {
    match call {
        Some(c) => apply_call(roles, c),
        None => roles,
    }
}

/// A member's role set after `n` rejoin events for the same subject over the
/// same store contents.
pub open spec fn apply_rejoin_n(
    roles: Set<u64>,
    records: Map<u64, RecordView>,
    subject: u64,
    n: nat,
) -> Set<u64>
    decreases n,
{
    if n == 0 {
        roles
    } else {
        apply_rejoin(
            apply_rejoin_n(roles, records, subject, (n - 1) as nat),
            rejoin_call(records, subject),
        )
    }
}

/// Rejoin reconciliation is idempotent: however many times the same rejoin is
/// replayed while the record is on file, the net effect on the member's role
/// set equals that of one call — re-adding a held role changes nothing, and
/// the store is never written.
pub proof fn lemma_on_rejoin_idempotent(
    roles: Set<u64>,
    records: Map<u64, RecordView>,
    subject: u64,
    n: nat,
)
    requires
        n >= 1,
    ensures
        apply_rejoin_n(roles, records, subject, n) == apply_rejoin_n(roles, records, subject, 1),
    decreases n,
{
    if n > 1 {
        lemma_on_rejoin_idempotent(roles, records, subject, (n - 1) as nat);
        let once = apply_rejoin_n(roles, records, subject, 1);
        match rejoin_call(records, subject) {
            Some(c) => {
                assert(apply_call(once, c) =~= once);
            },
            None => {},
        }
    }
}

} // verus!

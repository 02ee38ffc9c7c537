//! Expiry resolution: after a sanction's delay has run out, delete its record
//! and restore the member's prior standing, exactly once.
//!
//! The embedding waits out the delay and performs the directory calls; this
//! module decides. A resolution attempt runs in three steps: the store's
//! atomic find-and-delete arbitrates ownership, [`plan_restoration`] turns
//! what the store said into the directory calls owed, and
//! [`restoration_outcome`] turns what the directory said into the reported
//! outcome.

use vstd::prelude::*;

use crate::directory::{apply_call, apply_calls, DirectoryCall};
use crate::outcome::{FailureStage, ResolutionOutcome};
use crate::record::{RecordView, SanctionRecord};
use crate::store::SanctionStore;

verus! {

/// What the store's find-and-delete came back with. `Failure` stands for a
/// transport or storage error of a durable store; the in-memory
/// [`SanctionStore`] never produces one.
pub enum StoreOutcome {
    /// The store call itself failed; whether a record exists is unknown.
    Failure,
    /// No record was on file for the subject.
    Absent,
    /// The record was found and removed in one atomic step; the caller now
    /// owns the restoration.
    Deleted(SanctionRecord),
}

/// What a resolution attempt owes the directory.
#[derive(Debug, PartialEq, Eq)]
pub enum RestorationPlan {
    /// Nothing: the attempt is already settled with the given outcome, and
    /// membership must not be touched.
    Settled(ResolutionOutcome),
    /// Restore the member's standing: add back every taken role, then remove
    /// the restricted role.
    Restore { subject_id: u64, taken_roles: Vec<u64>, restricted_role_id: u64 },
}

impl RestorationPlan {
    /// Whether the plan performs a restoration.
    pub open spec fn is_restore(self) -> bool {
        self matches RestorationPlan::Restore { .. }
    }
}

/// Decides what a resolution attempt owes, from what the store said.
///
/// A store failure is terminal for the attempt: it is reported and no
/// directory call is made, so the restriction stays applied. An absent
/// record means a concurrent path already resolved the sanction: success as
/// a no-op, again with no directory call. Only the caller that got the
/// record out owes the restoration.
pub fn plan_restoration(outcome: StoreOutcome) -> (plan: RestorationPlan)
    ensures
        match outcome {
            StoreOutcome::Failure => plan == RestorationPlan::Settled(
                ResolutionOutcome::Failed(FailureStage::Store),
            ),
            StoreOutcome::Absent => plan == RestorationPlan::Settled(
                ResolutionOutcome::AlreadyResolved,
            ),
            StoreOutcome::Deleted(record) => {
                &&& plan matches RestorationPlan::Restore {
                    subject_id,
                    taken_roles,
                    restricted_role_id,
                }
                &&& plan->subject_id == record.subject_id
                &&& plan->taken_roles@ == record.taken_roles@
                &&& plan->restricted_role_id == record.restricted_role_id
            },
        },
{
    match outcome {
        StoreOutcome::Failure => RestorationPlan::Settled(
            ResolutionOutcome::Failed(FailureStage::Store),
        ),
        StoreOutcome::Absent => RestorationPlan::Settled(ResolutionOutcome::AlreadyResolved),
        StoreOutcome::Deleted(record) => RestorationPlan::Restore {
            subject_id: record.subject_id,
            taken_roles: record.taken_roles,
            restricted_role_id: record.restricted_role_id,
        },
    }
}

/// One resolution attempt against the store: the expiry timer's fire and a
/// manual unmute both come through here, and the store's atomic delete
/// decides which of them owns the restoration.
pub fn resolve_expiry(store: &mut SanctionStore, subject: u64) -> (plan: RestorationPlan)
    requires
        old(store).wf(),
    ensures
        final(store).wf(),
        final(store)@ == old(store)@.remove(subject),
        old(store)@.contains_key(subject) ==> {
            &&& plan matches RestorationPlan::Restore { .. }
            &&& plan->subject_id == subject
            &&& plan->taken_roles@ == old(store)@[subject].taken_roles
            &&& plan->restricted_role_id == old(store)@[subject].restricted_role_id
        },
        !old(store)@.contains_key(subject) ==> {
            &&& plan == RestorationPlan::Settled(ResolutionOutcome::AlreadyResolved)
            &&& final(store)@ == old(store)@
        },
        final(store)@ == step_records(old(store)@, SanctionEvent::ExpiryFired(subject)),
        plan.is_restore() <==> step_restores(
            old(store)@,
            SanctionEvent::ExpiryFired(subject),
            subject,
        ) == 1,
{
    match store.find_and_delete(subject) {
        Some(record) => plan_restoration(StoreOutcome::Deleted(record)),
        None => plan_restoration(StoreOutcome::Absent),
    }
}

/// The directory calls a plan owes, in the order they must be performed:
/// every taken role comes back in one call, and only then does the
/// restricted role go. A settled plan owes none.
pub fn plan_to_calls(plan: RestorationPlan) -> (calls: Vec<DirectoryCall>)
    ensures
        plan matches RestorationPlan::Settled(_) ==> calls@.len() == 0,
        plan matches RestorationPlan::Restore { subject_id, taken_roles, restricted_role_id }
            ==> {
            &&& calls@.len() == 2
            &&& calls@[0] matches DirectoryCall::AddRoles(s, roles) && s == subject_id
                && roles@ == taken_roles@
            &&& calls@[1] == DirectoryCall::RemoveRole(subject_id, restricted_role_id)
        },
{
    match plan {
        RestorationPlan::Settled(_) => Vec::new(),
        RestorationPlan::Restore { subject_id, taken_roles, restricted_role_id } => {
            let mut calls: Vec<DirectoryCall> = Vec::new();
            calls.push(DirectoryCall::AddRoles(subject_id, taken_roles));
            calls.push(DirectoryCall::RemoveRole(subject_id, restricted_role_id));
            calls
        },
    }
}

/// What to do with a still-active record found at startup.
#[derive(Debug, PartialEq, Eq)]
pub enum RearmAction {
    /// The deadline has already passed: resolve the sanction at once.
    ResolveNow,
    /// The deadline is still ahead: arm a timer for the remaining delay.
    Arm { delay: u64 },
}

/// Decides, for one record found at startup, whether its sanction is already
/// due or how long a re-armed timer must still wait. Timers live in process
/// memory; the records' durable deadlines are what lets a restart pick every
/// pending expiry back up.
pub fn rearm_decision(record: &SanctionRecord, now: u64) -> (action: RearmAction)
    ensures
        record.expires_at <= now ==> action == RearmAction::ResolveNow,
        record.expires_at > now ==> action == (RearmAction::Arm {
            delay: (record.expires_at - now) as u64,
        }),
{
    if record.expires_at <= now {
        RearmAction::ResolveNow
    } else {
        RearmAction::Arm { delay: record.expires_at - now }
    }
}

/// The paths that may touch a subject's sanction while its record is on
/// file. An expiry fire and a manual unmute both resolve through the store's
/// atomic delete; a rejoin only reads.
pub enum SanctionEvent {
    ExpiryFired(u64),
    ManualUnmute(u64),
    Rejoin(u64),
}

/// The store's contents after one event. The two resolving paths remove the
/// subject's record (whether or not one was there); a rejoin changes nothing.
pub open spec fn step_records(
    records: Map<u64, RecordView>,
    event: SanctionEvent,
) -> Map<u64, RecordView> {
    match event {
        SanctionEvent::ExpiryFired(s) => records.remove(s),
        SanctionEvent::ManualUnmute(s) => records.remove(s),
        SanctionEvent::Rejoin(_) => records,
    }
}

/// How many restorations of the subject's standing one event performs: one
/// exactly when a resolving path finds the subject's record still on file.
pub open spec fn step_restores(
    records: Map<u64, RecordView>,
    event: SanctionEvent,
    subject: u64,
) -> nat {
    match event {
        SanctionEvent::ExpiryFired(s) => if s == subject && records.contains_key(subject) {
            1nat
        } else {
            0nat
        },
        SanctionEvent::ManualUnmute(s) => if s == subject && records.contains_key(subject) {
            1nat
        } else {
            0nat
        },
        SanctionEvent::Rejoin(_) => 0nat,
    }
}

/// How many restorations of the subject's standing a sequence of events
/// performs in all.
pub open spec fn run_restores(
    records: Map<u64, RecordView>,
    events: Seq<SanctionEvent>,
    subject: u64,
) -> nat
    decreases events.len(),
{
    if events.len() == 0 {
        0nat
    } else {
        step_restores(records, events[0], subject) + run_restores(
            step_records(records, events[0]),
            events.drop_first(),
            subject,
        )
    }
}

proof fn lemma_absent_never_restored(
    records: Map<u64, RecordView>,
    events: Seq<SanctionEvent>,
    subject: u64,
)
    requires
        !records.contains_key(subject),
    ensures
        run_restores(records, events, subject) == 0,
    decreases events.len(),
{
    if events.len() > 0 {
        assert(!step_records(records, events[0]).contains_key(subject));
        lemma_absent_never_restored(step_records(records, events[0]), events.drop_first(), subject);
    }
}

/// At most one resolution ever occurs for a sanction record: over any
/// interleaving of expiry fires, manual unmutes and rejoins — no matter how
/// often the two resolving paths race — at most one event finds the record on
/// file and restores the subject's standing. The store's atomic delete is the
/// sole arbiter: the first resolving event takes the record out, and every
/// later attempt sees nothing.
pub proof fn lemma_at_most_one_resolution(
    records: Map<u64, RecordView>,
    events: Seq<SanctionEvent>,
    subject: u64,
)
    ensures
        run_restores(records, events, subject) <= 1,
    decreases events.len(),
{
    if events.len() > 0 {
        let rest = events.drop_first();
        let after = step_records(records, events[0]);
        if step_restores(records, events[0], subject) == 1 {
            assert(!after.contains_key(subject));
            lemma_absent_never_restored(after, rest, subject);
        } else {
            lemma_at_most_one_resolution(after, rest, subject);
        }
    }
}

/// A member's role set when a mute is applied: the taken roles go, the
/// restricted role comes.
pub open spec fn apply_mute(roles: Set<u64>, taken: Seq<u64>, restricted: u64) -> Set<u64> {
    roles.difference(taken.to_set()).insert(restricted)
}

/// What a restoration's calls — the taken roles added back, then the
/// restricted role removed — do to any starting role set.
pub proof fn lemma_restoration_calls_effect(
    roles: Set<u64>,
    calls: Seq<DirectoryCall>,
    subject: u64,
    taken: Seq<u64>,
    restricted: u64,
)
    requires
        calls.len() == 2,
        calls[0] matches DirectoryCall::AddRoles(s, rs) && s == subject && rs@ == taken,
        calls[1] == DirectoryCall::RemoveRole(subject, restricted),
    ensures
        apply_calls(roles, calls) == roles.union(taken.to_set()).remove(restricted),
{
    let once = apply_call(roles, calls[0]);
    let rest = calls.drop_first();
    assert(rest[0] == calls[1] && rest.len() == 1);
    assert(apply_calls(roles, calls) == apply_calls(once, rest));
    assert(apply_calls(once, rest) == apply_calls(apply_call(once, rest[0]), rest.drop_first()));
    assert(rest.drop_first().len() == 0);
    assert(apply_calls(apply_call(once, rest[0]), rest.drop_first()) == apply_call(once, rest[0]));
}

/// Restoration round-trips role state: a member whose mute took `taken` and
/// applied `restricted` is, after the restoration's calls, back at the role
/// set held before the mute — provided the taken roles were indeed held and
/// the restricted role was not.
pub proof fn lemma_restoration_round_trip(
    original: Set<u64>,
    calls: Seq<DirectoryCall>,
    subject: u64,
    taken: Seq<u64>,
    restricted: u64,
)
    requires
        taken.to_set().subset_of(original),
        !original.contains(restricted),
        calls.len() == 2,
        calls[0] matches DirectoryCall::AddRoles(s, rs) && s == subject && rs@ == taken,
        calls[1] == DirectoryCall::RemoveRole(subject, restricted),
    ensures
        apply_calls(apply_mute(original, taken, restricted), calls) == original,
{
    let muted = apply_mute(original, taken, restricted);
    lemma_restoration_calls_effect(muted, calls, subject, taken, restricted);
    assert(muted.union(taken.to_set()).remove(restricted) =~= original);
}

/// The reported outcome of a restoration, from how the two directory calls
/// went. The removal is attempted only when the re-addition succeeded, so a
/// removal result is present exactly then. Either failure leaves the record
/// already deleted; the two are reported apart so the operator-facing layer
/// can reconcile.
pub fn restoration_outcome(roles_restored: bool, removal_ok: Option<bool>) -> (outcome:
    ResolutionOutcome)
    requires
        roles_restored <==> removal_ok is Some,
    ensures
        !roles_restored ==> outcome == ResolutionOutcome::Failed(FailureStage::RoleRestore),
        removal_ok == Some(false) ==> outcome == ResolutionOutcome::Failed(
            FailureStage::RoleRemoval,
        ),
        removal_ok == Some(true) ==> outcome == ResolutionOutcome::Resolved,
{
    match removal_ok {
        None => ResolutionOutcome::Failed(FailureStage::RoleRestore),
        Some(false) => ResolutionOutcome::Failed(FailureStage::RoleRemoval),
        Some(true) => ResolutionOutcome::Resolved,
    }
}

} // verus!

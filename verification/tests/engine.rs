//! Scenario tests for the sanction engine, run against the in-memory store
//! double and a recorded list of directory calls.

use sanction_engine::ban::{ban_call, ban_outcome, BanKind, MAX_PURGE_DAYS};
use sanction_engine::directory::DirectoryCall;
use sanction_engine::expiry::{
    plan_restoration, plan_to_calls, rearm_decision, resolve_expiry, restoration_outcome,
    RearmAction, RestorationPlan, StoreOutcome,
};
use sanction_engine::outcome::{BanOutcome, FailureStage, RejoinOutcome, ResolutionOutcome};
use sanction_engine::record::SanctionRecord;
use sanction_engine::rejoin::{on_rejoin, rejoin_outcome};
use sanction_engine::scheduler::ExpiryScheduler;
use sanction_engine::store::SanctionStore;

fn muted_record(subject: u64, restricted: u64, taken: Vec<u64>, expires_at: u64) -> SanctionRecord {
    SanctionRecord { subject_id: subject, restricted_role_id: restricted, taken_roles: taken, expires_at }
}

/// Racing the expiry timer against a concurrent manual unmute: both paths go
/// through the store's find-and-delete, and exactly one of them gets the
/// restoration.
#[test]
fn resolution_happens_exactly_once() {
    let mut store = SanctionStore::new();
    store.insert(muted_record(77, 9, vec![2, 3], 50));

    let timer_fire = resolve_expiry(&mut store, 77);
    let manual_unmute = resolve_expiry(&mut store, 77);

    let restores = [&timer_fire, &manual_unmute]
        .iter()
        .filter(|plan| matches!(plan, RestorationPlan::Restore { .. }))
        .count();
    assert_eq!(restores, 1);
    assert_eq!(manual_unmute, RestorationPlan::Settled(ResolutionOutcome::AlreadyResolved));
    // The loser of the race owes no directory call at all.
    assert!(plan_to_calls(manual_unmute).is_empty());
}

/// Rejoin reconciliation is idempotent: replaying the event changes nothing,
/// and every reply asks for the same single role re-addition.
#[test]
fn rejoin_is_idempotent() {
    let mut store = SanctionStore::new();
    store.insert(muted_record(5, 11, vec![4], 50));

    let first = on_rejoin(&store, 5);
    let second = on_rejoin(&store, 5);
    let third = on_rejoin(&store, 5);
    assert_eq!(first, Some(DirectoryCall::AddRole(5, 11)));
    assert_eq!(second, Some(DirectoryCall::AddRole(5, 11)));
    assert_eq!(third, Some(DirectoryCall::AddRole(5, 11)));
    assert_eq!(store.len(), 1);
}

/// When find-and-delete returns no record, no directory call occurs.
#[test]
fn absent_record_is_a_no_op() {
    let mut store = SanctionStore::new();
    let plan = resolve_expiry(&mut store, 123);
    assert_eq!(plan, RestorationPlan::Settled(ResolutionOutcome::AlreadyResolved));
    assert!(plan_to_calls(plan).is_empty());
}

/// Restoration round-trips role state: taken roles [A, B] and restricted role
/// M yield add(A, B) then remove(M), add before remove.
#[test]
fn restoration_calls_in_order() {
    let a: u64 = 100;
    let b: u64 = 200;
    let m: u64 = 300;
    let mut store = SanctionStore::new();
    store.insert(muted_record(8, m, vec![a, b], 50));

    let plan = resolve_expiry(&mut store, 8);
    let calls = plan_to_calls(plan);
    assert_eq!(
        calls,
        vec![DirectoryCall::AddRoles(8, vec![a, b]), DirectoryCall::RemoveRole(8, m)]
    );
}

/// Ban purge days are clamped to the platform's maximum of seven.
#[test]
fn ban_purge_days_clamp() {
    assert_eq!(MAX_PURGE_DAYS, 7);
    let over = ban_call(BanKind::Ban(1, Some(30), None));
    assert!(matches!(over, DirectoryCall::Ban(1, 7, _)));
    let under = ban_call(BanKind::Ban(1, Some(3), None));
    assert!(matches!(under, DirectoryCall::Ban(1, 3, _)));
    let zero = ban_call(BanKind::Ban(1, Some(0), None));
    assert!(matches!(zero, DirectoryCall::Ban(1, 0, _)));
    let omitted = ban_call(BanKind::Ban(1, None, None));
    assert!(matches!(omitted, DirectoryCall::Ban(1, 0, _)));
}

/// A ban's reason goes through verbatim; a missing one is spelled out.
#[test]
fn ban_reason_passthrough_and_default() {
    let given = ban_call(BanKind::Ban(4, None, Some("spam".to_string())));
    assert_eq!(given, DirectoryCall::Ban(4, 0, "spam".to_string()));
    let missing = ban_call(BanKind::Ban(4, None, None));
    assert_eq!(missing, DirectoryCall::Ban(4, 0, "None specified".to_string()));
    let unban = ban_call(BanKind::Unban(4));
    assert_eq!(unban, DirectoryCall::Unban(4));
    assert_eq!(ban_outcome(true), BanOutcome::Applied);
    assert_eq!(ban_outcome(false), BanOutcome::Failed);
}

/// Subject X is muted with taken roles [Editor], delay one unit. After the
/// delay elapses and the store still holds X's record, the engine asks for
/// add(Editor) and remove(Muted) exactly once and reports that the sanction
/// resolved.
#[test]
fn expiry_scenario_restores_and_reports_ok() {
    let x: u64 = 42;
    let editor: u64 = 600;
    let muted: u64 = 700;
    let now: u64 = 10;
    let delay: u64 = 1;

    let mut store = SanctionStore::new();
    let mut scheduler = ExpiryScheduler::new();
    store.insert(muted_record(x, muted, vec![editor], now + delay));
    let handle = scheduler.schedule_expiry(x, muted, now, delay);

    // Before the deadline the timer must not fire.
    assert_eq!(scheduler.fire(handle, now), None);
    assert!(scheduler.is_pending(handle));

    // The delay elapses; the fire owns the task, the store still holds X.
    let task = scheduler.fire(handle, now + delay).expect("timer is due");
    assert_eq!(task.subject_id, x);
    let plan = resolve_expiry(&mut store, task.subject_id);
    let calls = plan_to_calls(plan);
    assert_eq!(
        calls,
        vec![DirectoryCall::AddRoles(x, vec![editor]), DirectoryCall::RemoveRole(x, muted)]
    );

    // The directory performs both calls; the outcome is a full resolution.
    assert_eq!(restoration_outcome(true, Some(true)), ResolutionOutcome::Resolved);
    assert!(!store.contains_subject(x));

    // A second fire of the same handle finds nothing.
    assert_eq!(scheduler.fire(handle, now + delay), None);
}

/// Subject X rejoins while a record exists: one add(Muted) call, and the
/// store is not touched.
#[test]
fn rejoin_scenario_reapplies_restriction() {
    let x: u64 = 13;
    let muted: u64 = 900;
    let mut store = SanctionStore::new();
    store.insert(muted_record(x, muted, vec![1, 2, 3], 50));

    let call = on_rejoin(&store, x);
    assert_eq!(call, Some(DirectoryCall::AddRole(x, muted)));
    let record = store.find_by_subject(x).expect("record stays on file");
    assert_eq!(record.restricted_role_id, muted);
    assert!(store.find_by_subject(999).is_none());
    assert!(store.contains_subject(x));
    assert_eq!(store.len(), 1);
    assert_eq!(rejoin_outcome(true, Some(true)), RejoinOutcome::Reapplied);
}

/// A restart finds the durable records: an overdue sanction resolves at
/// once, a pending one gets a timer for exactly the remaining delay.
#[test]
fn startup_rearm_from_durable_deadlines() {
    let overdue = muted_record(1, 9, vec![], 30);
    let pending = muted_record(2, 9, vec![], 45);
    assert_eq!(rearm_decision(&overdue, 30), RearmAction::ResolveNow);
    assert_eq!(rearm_decision(&overdue, 31), RearmAction::ResolveNow);
    assert_eq!(rearm_decision(&pending, 30), RearmAction::Arm { delay: 15 });
}

/// The store's find-and-delete fails during expiry: the engine reports a
/// storage failure and makes no directory call at all.
#[test]
fn store_failure_reported_without_directory_calls() {
    let plan = plan_restoration(StoreOutcome::Failure);
    assert_eq!(
        plan,
        RestorationPlan::Settled(ResolutionOutcome::Failed(FailureStage::Store))
    );
    assert!(plan_to_calls(plan).is_empty());
}

//! Outcome taxonomy: one closed set of result variants per action, so that
//! callers of each path can tell storage failures, directory failures and
//! benign no-ops apart for audit purposes.

use vstd::prelude::*;

verus! {

/// Where a scheduled resolution failed.
#[derive(Clone, Copy, Debug, PartialEq, Eq)]
pub enum FailureStage {
    /// The store's find-and-delete failed; the restriction stays applied and
    /// the record stays on file.
    Store,
    /// Re-adding the taken roles failed; the record is already gone, so the
    /// subject is left restricted with nothing on file — the operator-facing
    /// layer must reconcile.
    RoleRestore,
    /// Removing the restricted role failed after the taken roles came back.
    RoleRemoval,
}

/// What a resolution attempt came to.
#[derive(Clone, Copy, Debug, PartialEq, Eq)]
pub enum ResolutionOutcome {
    /// The record was removed and the member's standing fully restored.
    Resolved,
    /// No record was on file: a concurrent path already resolved the
    /// sanction. Success as a no-op; membership was not touched.
    AlreadyResolved,
    /// The attempt stopped at the named stage.
    Failed(FailureStage),
}

/// What a rejoin reconciliation came to.
#[derive(Clone, Copy, Debug, PartialEq, Eq)]
pub enum RejoinOutcome {
    /// A record was on file and the restricted role was put back.
    Reapplied,
    /// No record was on file; the subject is not currently sanctioned.
    NotSanctioned,
    /// The directory call failed. The record stays on file, so a later
    /// expiry fire will still attempt restoration.
    Failed,
}

/// What an immediate ban or unban came to.
#[derive(Clone, Copy, Debug, PartialEq, Eq)]
pub enum BanOutcome {
    /// The directory accepted the call.
    Applied,
    /// The directory refused the call; there is no local state to roll back.
    Failed,
}

} // verus!

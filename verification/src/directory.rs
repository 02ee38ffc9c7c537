//! The directory adapter's call surface, as values.
//!
//! The engine never reaches the directory service itself: it hands the
//! embedding a sequence of calls to perform. Modelling the calls as plain
//! values is what lets their effect on a member's role set be stated and
//! proved.

use vstd::prelude::*;

verus! {

/// One call into the external directory service, about one member.
#[derive(Debug, PartialEq, Eq)]
pub enum DirectoryCall {
    /// Add one group membership: (subject, role).
    AddRole(u64, u64),
    /// Add several group memberships at once: (subject, roles).
    AddRoles(u64, Vec<u64>),
    /// Remove one group membership: (subject, role).
    RemoveRole(u64, u64),
    /// Ban, purging the given days of recent messages: (subject, purge days,
    /// reason).
    Ban(u64, u8, String),
    /// Lift a ban: (subject).
    Unban(u64),
}

/// A member's group memberships after the directory performs one call.
/// Membership is a set: adding a role a member already holds changes nothing.
/// Ban and unban do not touch role state.
pub open spec fn apply_call(roles: Set<u64>, call: DirectoryCall) -> Set<u64> {
    match call {
        DirectoryCall::AddRole(_, role) => roles.insert(role),
        DirectoryCall::AddRoles(_, added) => roles.union(added@.to_set()),
        DirectoryCall::RemoveRole(_, role) => roles.remove(role),
        DirectoryCall::Ban(_, _, _) => roles,
        DirectoryCall::Unban(_) => roles,
    }
}

/// A member's group memberships after the directory performs a sequence of
/// calls, first to last.
pub open spec fn apply_calls(roles: Set<u64>, calls: Seq<DirectoryCall>) -> Set<u64>
    decreases calls.len(),
{
    if calls.len() == 0 {
        roles
    } else {
        apply_calls(apply_call(roles, calls[0]), calls.drop_first())
    }
}

} // verus!

//! The sanction record: the unit of durable state behind a temporary mute.

use vstd::prelude::*;

verus! {

/// A durable mute record. One record stands for one active sanction: it names
/// the restricted member, the role that enforces the restriction, the roles
/// the member held before the restriction (to be restored on expiry), and the
/// absolute time at which the sanction ends.
pub struct SanctionRecord {
    /// The restricted member. At most one active record per subject; the
    /// creator of records upholds this.
    pub subject_id: u64,
    /// The group membership that enforces the restriction.
    pub restricted_role_id: u64,
    /// The memberships removed when the restriction was applied, in the order
    /// they are to be given back.
    pub taken_roles: Vec<u64>,
    /// Absolute expiry time, so a pending sanction survives a restart.
    pub expires_at: u64,
}

/// The mathematical value of a [`SanctionRecord`].
pub ghost struct RecordView {
    pub subject_id: u64,
    pub restricted_role_id: u64,
    pub taken_roles: Seq<u64>,
    pub expires_at: u64,
}

impl View for SanctionRecord {
    type V = RecordView;

    open spec fn view(&self) -> RecordView {
        RecordView {
            subject_id: self.subject_id,
            restricted_role_id: self.restricted_role_id,
            taken_roles: self.taken_roles@,
            expires_at: self.expires_at,
        }
    }
}

} // verus!

//! Immediate sanctions: ban and unban, applied in one directory call with no
//! persisted state, no retries, and no interaction with the sanction store.

use vstd::prelude::*;

use crate::directory::DirectoryCall;
use crate::outcome::BanOutcome;

verus! {

broadcast use vstd::string::group_string_axioms;

/// The most recent message history a ban may purge, in days: the platform's
/// maximum. Requests above it are clamped down to it.
pub const MAX_PURGE_DAYS: u8 = 7;

/// An immediate sanction to apply: a ban (with an optional amount of recent
/// message history to purge, and an optional reason) or an unban.
pub enum BanKind {
    Ban(u64, Option<u8>, Option<String>),
    Unban(u64),
}

/// The purge days actually sent: the requested amount, absent meaning none,
/// clamped to the platform's maximum.
pub open spec fn clamped_purge_days(requested: Option<u8>) -> u8 {
    let days = match requested {
        Some(d) => d,
        None => 0,
    };
    if days > MAX_PURGE_DAYS {
        MAX_PURGE_DAYS
    } else {
        days
    }
}

/// The one directory call an immediate sanction owes. A ban's purge days are
/// clamped to the platform's maximum and a missing reason is spelled out;
/// everything else goes through verbatim.
pub fn ban_call(kind: BanKind) -> (call: DirectoryCall)
    ensures
        kind matches BanKind::Ban(subject, days, reason) ==> {
            &&& call matches DirectoryCall::Ban(s, d, text)
            &&& s == subject
            &&& d == clamped_purge_days(days)
            &&& text@ == match reason {
                Some(given) => given@,
                None => "None specified"@,
            }
        },
        kind matches BanKind::Unban(subject) ==> call == DirectoryCall::Unban(subject),
{
    match kind {
        BanKind::Ban(subject, days, reason) => {
            let requested = match days {
                Some(d) => d,
                None => 0,
            };
            let purge = if requested > MAX_PURGE_DAYS {
                MAX_PURGE_DAYS
            } else {
                requested
            };
            let text = match reason {
                Some(given) => given,
                None => "None specified".to_string(),
            };
            DirectoryCall::Ban(subject, purge, text)
        },
        BanKind::Unban(subject) => DirectoryCall::Unban(subject),
    }
}

/// The reported outcome of an immediate sanction, from how the directory
/// call went. Failures are reported synchronously; there is nothing to roll
/// back.
pub fn ban_outcome(call_ok: bool) -> (outcome: BanOutcome)
    ensures
        outcome == (if call_ok {
            BanOutcome::Applied
        } else {
            BanOutcome::Failed
        }),
{
    if call_ok {
        BanOutcome::Applied
    } else {
        BanOutcome::Failed
    }
}

} // verus!

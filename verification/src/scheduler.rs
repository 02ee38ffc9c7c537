//! The expiry scheduler's bookkeeping: an explicit table from task handle to
//! pending expiry, so a manual unmute can cancel the matching timer and a
//! restart can re-arm from the records' durable deadlines.
//!
//! The embedding owns the waiting itself (one background task per handle);
//! this table decides whether a fire or a cancel still finds its task. A
//! cancel that races a fire is safe either way: whichever comes second finds
//! the entry gone, and the store's atomic delete guards the restoration
//! itself besides.

use std::collections::HashMap;
use vstd::prelude::*;

verus! {

broadcast use vstd::std_specs::hash::group_hash_axioms;

/// Names one pending expiry task, for cancellation.
#[derive(Clone, Copy, Debug, PartialEq, Eq, Structural)]
pub struct TaskHandle {
    pub id: u64,
}

/// One armed timer: which subject it resolves, the role to remove then, and
/// the absolute time at which it may fire.
#[derive(Clone, Copy, Debug, PartialEq, Eq, Structural)]
pub struct PendingExpiry {
    pub handle: u64,
    pub subject_id: u64,
    pub restricted_role_id: u64,
    pub deadline: u64,
}

/// The table of pending expiries, keyed by handle. Handles are never reused:
/// each is issued once, from a counter.
pub struct ExpiryScheduler {
    next_handle: u64,
    pending: HashMap<u64, PendingExpiry>,
}

impl ExpiryScheduler {
    /// The table as a map from handle to its pending expiry.
    pub closed spec fn view(&self) -> Map<u64, PendingExpiry> {
        self.pending@
    }

    /// The next handle to be issued; every issued handle is below it.
    pub closed spec fn handle_bound(&self) -> u64 {
        self.next_handle
    }

    /// Every entry is filed under its own handle, and below the counter.
    pub open spec fn wf(&self) -> bool {
        forall|h: u64| self@.contains_key(h) ==> {
            &&& (#[trigger] self@[h]).handle == h
            &&& h < self.handle_bound()
        }
    }

    /// Whether a fresh handle can still be issued.
    pub open spec fn handles_available(&self) -> bool {
        self.handle_bound() < u64::MAX
    }

    pub fn new() -> (scheduler: Self)
        ensures
            scheduler.wf(),
            scheduler.handles_available(),
            scheduler@ == Map::<u64, PendingExpiry>::empty(),
    {
        ExpiryScheduler { next_handle: 0, pending: HashMap::new() }
    }

    /// Whether a fresh handle can still be issued, for an embedding that must
    /// test it before arming a timer.
    pub fn can_schedule(&self) -> (available: bool)
        ensures
            available == self.handles_available(),
    {
        self.next_handle < u64::MAX
    }

    /// Arms a timer: after `delay` has passed from `now`, the sanction on
    /// `subject_id` is to be resolved. Returns a fresh handle by which the
    /// task can be cancelled.
    pub fn schedule_expiry(
        &mut self,
        subject_id: u64,
        restricted_role_id: u64,
        now: u64,
        delay: u64,
    ) -> (handle: TaskHandle)
        requires
            old(self).wf(),
            old(self).handles_available(),
            now + delay <= u64::MAX,
        ensures
            final(self).wf(),
            !old(self)@.contains_key(handle.id),
            final(self)@ == old(self)@.insert(
                handle.id,
                PendingExpiry {
                    handle: handle.id,
                    subject_id,
                    restricted_role_id,
                    deadline: (now + delay) as u64,
                },
            ),
            final(self).handle_bound() == old(self).handle_bound() + 1,
    {
        let id = self.next_handle;
        self.next_handle = self.next_handle + 1;
        let entry = PendingExpiry {
            handle: id,
            subject_id,
            restricted_role_id,
            deadline: now + delay,
        };
        self.pending.insert(id, entry);
        proof {
            assert forall|h: u64| self@.contains_key(h) implies (#[trigger] self@[h]).handle == h
                && h < self.handle_bound() by {
                if h != id {
                    assert(old(self)@.contains_key(h));
                    assert(old(self)@[h].handle == h);
                }
            }
        }
        TaskHandle { id }
    }

    /// Disarms a timer before it fires, for a manual unmute. Reports whether
    /// the task was still pending; a cancel that loses the race to the fire
    /// finds nothing and changes nothing.
    pub fn cancel(&mut self, handle: TaskHandle) -> (was_pending: bool)
        requires
            old(self).wf(),
        ensures
            final(self).wf(),
            final(self)@ == old(self)@.remove(handle.id),
            was_pending == old(self)@.contains_key(handle.id),
            final(self).handle_bound() == old(self).handle_bound(),
    {
        let removed = self.pending.remove(&handle.id);
        proof {
            if removed is None {
                assert(self@ =~= old(self)@);
            }
            assert forall|h: u64| self@.contains_key(h) implies (#[trigger] self@[h]).handle == h
                && h < self.handle_bound() by {
                assert(old(self)@.contains_key(h));
                assert(old(self)@[h].handle == h);
            }
        }
        removed.is_some()
    }

    /// A timer's fire: if the task is still pending and its deadline has
    /// passed, takes it out of the table and hands back what to resolve. A
    /// fire after a cancel finds nothing; a fire before the deadline leaves
    /// the task armed.
    pub fn fire(&mut self, handle: TaskHandle, now: u64) -> (task: Option<PendingExpiry>)
        requires
            old(self).wf(),
        ensures
            final(self).wf(),
            final(self).handle_bound() == old(self).handle_bound(),
            match task {
                Some(entry) => {
                    &&& old(self)@.contains_key(handle.id)
                    &&& entry == old(self)@[handle.id]
                    &&& entry.deadline <= now
                    &&& final(self)@ == old(self)@.remove(handle.id)
                },
                None => {
                    &&& final(self)@ == old(self)@
                    &&& (old(self)@.contains_key(handle.id) ==> old(self)@[handle.id].deadline
                        > now)
                },
            },
    {
        let due = match self.pending.get(&handle.id) {
            Some(entry) => if entry.deadline <= now {
                Some(*entry)
            } else {
                None
            },
            None => None,
        };
        let task = match due {
            Some(entry) => {
                self.pending.remove(&handle.id);
                Some(entry)
            },
            None => None,
        };
        proof {
            assert forall|h: u64| self@.contains_key(h) implies (#[trigger] self@[h]).handle == h
                && h < self.handle_bound() by {
                assert(old(self)@.contains_key(h));
                assert(old(self)@[h].handle == h);
            }
        }
        task
    }

    /// Whether a task is still armed.
    pub fn is_pending(&self, handle: TaskHandle) -> (pending: bool)
        ensures
            pending == self@.contains_key(handle.id),
    {
        self.pending.contains_key(&handle.id)
    }
}

} // verus!

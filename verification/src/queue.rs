//! A single-slot render request queue with coalesce-to-latest semantics.
//!
//! At most one render is in flight; a request arriving while one is running
//! overwrites the pending slot instead of queueing, so a stream of
//! superseding requests collapses to the latest one. The interactive
//! collaborator drives this state machine and performs the renders it hands
//! out.

use vstd::prelude::*;

use crate::config::Config;

verus! {

/// State of the request queue: whether a render is in flight, and the one
/// pending request, if any.
pub struct RedrawQueue {
    pub working: bool,
    pub pending: Option<Config>,
}

impl RedrawQueue {
    /// A render is only ever pending while one is in flight.
    pub open spec fn wf(self) -> bool {
        self.pending is Some ==> self.working
    }

    /// An idle queue: nothing in flight, nothing pending.
    pub fn new() -> (q: RedrawQueue)
        ensures
            !q.working,
            q.pending is None,
            q.wf(),
    {
        RedrawQueue { working: false, pending: None }
    }

    /// Requests a render of `config`. When the queue is idle the request
    /// starts at once and is returned to the caller to run; when a render is
    /// in flight the request parks in the single pending slot, overwriting
    /// any request already there.
    pub fn request(&mut self, config: Config) -> (start: Option<Config>)
        requires
            old(self).wf(),
        ensures
            final(self).wf(),
            final(self).working,
            old(self).working ==> start is None && final(self).pending == Some(config),
            !old(self).working ==> start == Some(config) && final(self).pending is None,
    {
        if self.working {
            self.pending = Some(config);
            None
        } else {
            self.working = true;
            Some(config)
        }
    }

    /// Reports a finished render. When a request is pending it is handed
    /// back to run next and the queue stays busy; otherwise the queue
    /// becomes idle.
    pub fn finish(&mut self) -> (next: Option<Config>)
        requires
            old(self).wf(),
        ensures
            final(self).wf(),
            final(self).pending is None,
            next == old(self).pending,
            final(self).working == (old(self).pending is Some),
    {
        let next = self.pending;
        self.pending = None;
        if next.is_none() {
            self.working = false;
        }
        next
    }
}

} // verus!

//! The watch registry: routes an opaque watch identifier, as handed out by
//! the operating system's file-notification facility when a watch is
//! installed, to the trigger handler that owns it.
//!
//! Each identifier maps to exactly one handler. The registry is built once
//! at startup and consulted on every incoming event; an identifier it does
//! not know is ignored by the caller.

use vstd::prelude::*;
use crate::handler::{debounced, poll_outcome_ok, PollOutcome, TriggerHandler};

verus! {

/// What one incoming event asks of the caller: nothing, or one file read
/// followed by a poll of the handler at `index`.
pub enum EventDecision {
    /// The event's watch identifier is not in the registry; it is ignored.
    Unknown,
    /// The owning handler is still inside its debounce window; the event is
    /// consumed without a read.
    Suppressed { index: usize },
    /// The owning handler wants its file read; poll it with the content.
    ReadFile { index: usize, file: String },
}

/// Routing table from watch identifier to owning trigger handler.
pub struct WatchRegistry {
    ids: Vec<u64>,
    handlers: Vec<TriggerHandler>,
}

impl WatchRegistry {
    /// The installed watch identifiers, in installation order.
    pub closed spec fn ids(&self) -> Seq<u64> {
        self.ids@
    }

    /// The handlers, parallel to `ids()`.
    pub closed spec fn handlers(&self) -> Seq<TriggerHandler> {
        self.handlers@
    }

    /// Well-formed: one handler per identifier, identifiers distinct.
    pub open spec fn wf(&self) -> bool {
        &&& self.ids().len() == self.handlers().len()
        &&& forall|i: int, j: int|
            0 <= i < j < self.ids().len() ==> self.ids()[i] != self.ids()[j]
    }

    pub fn new() -> (r: WatchRegistry)
        ensures
            r.wf(),
            r.ids().len() == 0,
    {
        WatchRegistry { ids: Vec::new(), handlers: Vec::new() }
    }

    /// How many watches are installed.
    pub fn len(&self) -> (r: usize)
        ensures
            r == self.ids().len(),
    {
        self.ids.len()
    }

    /// The position of `watch_id` in the table, if it is installed.
    pub fn find(&self, watch_id: u64) -> (r: Option<usize>)
        ensures
            match r {
                Some(i) => i < self.ids().len() && self.ids()[i as int] == watch_id,
                None => !self.ids().contains(watch_id),
            },
    {
        let mut i: usize = 0;
        while i < self.ids.len()
            invariant
                i <= self.ids@.len(),
                forall|k: int| 0 <= k < i ==> self.ids@[k] != watch_id,
            decreases self.ids@.len() - i,
        {
            if self.ids[i] == watch_id {
                return Some(i);
            }
            i = i + 1;
        }
        None
    }

    /// Record that the watch `watch_id` now routes to `handler`. Refused,
    /// with the registry unchanged, when the identifier is already taken:
    /// each identifier owns exactly one handler.
    pub fn install(&mut self, watch_id: u64, handler: TriggerHandler) -> (ok: bool)
        requires
            old(self).wf(),
        ensures
            final(self).wf(),
            ok == !old(self).ids().contains(watch_id),
            ok ==> final(self).ids() == old(self).ids().push(watch_id)
                && final(self).handlers() == old(self).handlers().push(handler),
            !ok ==> *final(self) == *old(self),
    {
        match self.find(watch_id) {
            Some(_) => false,
            None => {
                self.ids.push(watch_id);
                self.handlers.push(handler);
                true
            },
        }
    }

    /// The file watched by the handler at position `i`.
    pub fn file_at(&self, i: usize) -> (r: &String)
        requires
            i < self.handlers().len(),
        ensures
            r@ == self.handlers()[i as int].trigger.file@,
    {
        &self.handlers[i].trigger.file
    }

    /// The trigger name of the handler at position `i`.
    pub fn name_at(&self, i: usize) -> (r: &String)
        requires
            i < self.handlers().len(),
        ensures
            r@ == self.handlers()[i as int].trigger.name@,
    {
        &self.handlers[i].trigger.name
    }

    /// Whether the handler at position `i` would read its file if polled at
    /// `now_ms`, or is still inside its debounce window.
    pub fn should_poll_at(&self, i: usize, now_ms: u64) -> (r: bool)
        requires
            i < self.handlers().len(),
        ensures
            r == !debounced(self.handlers()[i as int].last_access, now_ms),
    {
        self.handlers[i].should_poll(now_ms)
    }

    /// Route one incoming event: find the handler owning `watch_id` and
    /// decide whether its file is to be read now. An identifier the
    /// registry does not know is ignored; a handler inside its debounce
    /// window consumes the event without a read.
    pub fn decide_event(&self, watch_id: u64, now_ms: u64) -> (r: EventDecision)
        requires
            self.wf(),
        ensures
            match r {
                EventDecision::Unknown => !self.ids().contains(watch_id),
                EventDecision::Suppressed { index } => index < self.ids().len()
                    && self.ids()[index as int] == watch_id
                    && debounced(self.handlers()[index as int].last_access, now_ms),
                EventDecision::ReadFile { index, file } => index < self.ids().len()
                    && self.ids()[index as int] == watch_id
                    && !debounced(self.handlers()[index as int].last_access, now_ms)
                    && file@ == self.handlers()[index as int].trigger.file@,
            },
    {
        match self.find(watch_id) {
            None => EventDecision::Unknown,
            Some(index) => {
                if self.handlers[index].should_poll(now_ms) {
                    EventDecision::ReadFile { index, file: self.handlers[index].trigger.file.clone() }
                } else {
                    EventDecision::Suppressed { index }
                }
            },
        }
    }

    /// Poll the handler at position `i` with the raw content `raw` read at
    /// `now_ms`. Only that handler moves; the routing and every other
    /// handler stay exactly as they were.
    pub fn poll_at(&mut self, i: usize, now_ms: u64, raw: &str) -> (r: PollOutcome)
        requires
            old(self).wf(),
            i < old(self).handlers().len(),
        ensures
            final(self).wf(),
            final(self).ids() == old(self).ids(),
            final(self).handlers().len() == old(self).handlers().len(),
            forall|k: int| 0 <= k < old(self).handlers().len() && k != i
                ==> final(self).handlers()[k] == old(self).handlers()[k],
            poll_outcome_ok(
                old(self).handlers()[i as int],
                final(self).handlers()[i as int],
                now_ms,
                raw@,
                r,
            ),
    {
        let mut h = self.handlers.remove(i);
        let r = h.poll(now_ms, raw);
        let ghost hv = h;
        self.handlers.insert(i, h);
        proof {
            assert(self.handlers@ =~= old(self).handlers().update(i as int, hv));
        }
        r
    }
}

} // verus!

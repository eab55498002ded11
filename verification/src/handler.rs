//! Per-trigger runtime state: the debounce clock and the cache of the last
//! resolved value, with the poll operation that turns raw file reads into a
//! stream of *changed* semantic values.
//!
//! Two forms of suppression apply. Time-based debounce: once a read has been
//! taken at some instant, any poll less than the debounce window later is a
//! no-op, so notification storms collapse into one read. Value-based
//! deduplication: a resolved value equal to the cached one is not reported
//! again; only a change of the resolved value is.
//!
//! Content with no entry in the trigger's value mapping is a warning, not an
//! error: it advances the debounce clock but yields no value and leaves the
//! cache exactly as it was.

use vstd::prelude::*;
use crate::config::Trigger;
use crate::text::{trim, trim_of};
use crate::value_map::lookup_in;

verus! {

/// Minimum number of milliseconds between two successive content reads of a
/// trigger's file.
pub const DEBOUNCE_MS: u64 = 50;

/// Whether a poll at `now_ms` falls inside the debounce window opened by the
/// last read at `last_access` and is therefore suppressed. A handler that
/// has never read is never debounced.
pub open spec fn debounced(last_access: Option<u64>, now_ms: u64) -> bool {
    match last_access {
        Some(last) => now_ms < last + DEBOUNCE_MS,
        None => false,
    }
}

/// The view of a cached value: the cached character sequence, if any.
pub open spec fn cache_view(cache: Option<String>) -> Option<Seq<char>> {
    match cache {
        Some(s) => Some(s@),
        None => None,
    }
}

/// The value a poll reports, given the trigger's mapping entries, the cached
/// value and the trimmed raw content: the resolved value exactly when it
/// resolves and differs from the cache.
pub open spec fn poll_value(
    entries: Seq<(Seq<char>, Seq<char>)>,
    cache: Option<Seq<char>>,
    content: Seq<char>,
) -> Option<Seq<char>> {
    match lookup_in(entries, content) {
        Some(v) => if cache == Some(v) {
            None
        } else {
            Some(v)
        },
        None => None,
    }
}

/// The cache a poll leaves behind: the resolved value when the content
/// resolves, the old cache untouched when it does not.
pub open spec fn poll_cache(
    entries: Seq<(Seq<char>, Seq<char>)>,
    cache: Option<Seq<char>>,
    content: Seq<char>,
) -> Option<Seq<char>> {
    match lookup_in(entries, content) {
        Some(v) => Some(v),
        None => cache,
    }
}

/// What one poll did: the caller reports a `MappingMiss` as a warning and
/// dispatches a `Changed` value; the other outcomes ask for nothing.
#[derive(Debug, PartialEq, Eq)]
pub enum PollOutcome {
    /// Inside the debounce window; the file was not read and nothing moved.
    Suppressed,
    /// The content has no entry in the trigger's mapping: a warning for the
    /// caller, no value, the cache untouched.
    MappingMiss,
    /// The content resolved to the value already cached; nothing to report.
    Unchanged,
    /// The resolved value differs from the cached one; it was cached and is
    /// to be dispatched.
    Changed(String),
}

/// The value a poll outcome carries: the newly resolved value on a change,
/// nothing otherwise.
pub open spec fn outcome_view(o: PollOutcome) -> Option<Seq<char>> {
    match o {
        PollOutcome::Changed(s) => Some(s@),
        _ => None,
    }
}

/// Per-trigger runtime state. One handler per trigger, created at startup,
/// mutated only by its own poll.
pub struct TriggerHandler {
    pub trigger: Trigger,
    /// When the trigger's file was last read, in milliseconds of the
    /// caller's monotonic clock; `None` until the first read.
    pub last_access: Option<u64>,
    /// The last value successfully resolved from the file; `None` until the
    /// first successful resolution with a mapping hit.
    pub cached_val: Option<String>,
}

/// How one poll at `now_ms` with raw content `raw` carries a handler from
/// `pre` to `post`, reporting `reported`: a debounced poll changes nothing
/// and reports nothing; otherwise the debounce clock is set to `now_ms` and
/// the cache and the report follow the resolve-and-diff rules on the trimmed
/// content.
pub open spec fn poll_rel(
    pre: TriggerHandler,
    post: TriggerHandler,
    now_ms: u64,
    raw: Seq<char>,
    reported: Option<Seq<char>>,
) -> bool {
    if debounced(pre.last_access, now_ms) {
        post == pre && reported is None
    } else {
        &&& post.trigger == pre.trigger
        &&& post.last_access == Some(now_ms)
        &&& cache_view(post.cached_val) == poll_cache(
            pre.trigger.map.entries(),
            cache_view(pre.cached_val),
            trim_of(raw),
        )
        &&& reported == poll_value(
            pre.trigger.map.entries(),
            cache_view(pre.cached_val),
            trim_of(raw),
        )
    }
}

/// The full contract of one poll: the state moves as `poll_rel` says for the
/// carried value, the poll is suppressed exactly when it falls inside the
/// debounce window, and an unsuppressed poll reports a mapping miss exactly
/// when the trimmed content has no entry in the trigger's mapping.
pub open spec fn poll_outcome_ok(
    pre: TriggerHandler,
    post: TriggerHandler,
    now_ms: u64,
    raw: Seq<char>,
    r: PollOutcome,
) -> bool {
    &&& poll_rel(pre, post, now_ms, raw, outcome_view(r))
    &&& (r is Suppressed <==> debounced(pre.last_access, now_ms))
    &&& !debounced(pre.last_access, now_ms) ==> (r is MappingMiss <==> lookup_in(
        pre.trigger.map.entries(),
        trim_of(raw),
    ) is None)
}

impl TriggerHandler {
    /// A fresh handler for `trigger`: no read taken yet, nothing cached.
    pub fn new(trigger: Trigger) -> (h: TriggerHandler)
        ensures
            h.trigger == trigger,
            h.last_access is None,
            h.cached_val is None,
    {
        TriggerHandler { trigger, last_access: None, cached_val: None }
    }

    /// The name of the trigger this handler serves.
    pub fn name(&self) -> (r: &str)
        ensures
            r@ == self.trigger.name@,
    {
        self.trigger.name.as_str()
    }

    /// Whether a poll at `now_ms` would actually read the file, or be
    /// suppressed by the debounce window. Callers ask this before reading,
    /// so a suppressed poll costs no read.
    pub fn should_poll(&self, now_ms: u64) -> (r: bool)
        ensures
            r == !debounced(self.last_access, now_ms),
    {
        match self.last_access {
            Some(last) => !(last > now_ms || now_ms - last < DEBOUNCE_MS),
            None => true,
        }
    }

    /// One poll with the raw content `raw` read from the trigger's file at
    /// `now_ms`: a no-op inside the debounce window; otherwise the clock
    /// advances unconditionally, the trimmed content is resolved through the
    /// trigger's mapping, and a changed resolved value is reported, an
    /// unchanged one deduplicated, and unmapped content flagged as a miss
    /// that leaves the cache untouched.
    pub fn poll(&mut self, now_ms: u64, raw: &str) -> (r: PollOutcome)
        ensures
            poll_outcome_ok(*old(self), *final(self), now_ms, raw@, r),
    {
        let suppressed = match self.last_access {
            Some(last) => last > now_ms || now_ms - last < DEBOUNCE_MS,
            None => false,
        };
        if suppressed {
            return PollOutcome::Suppressed;
        }
        self.last_access = Some(now_ms);
        let content = trim(raw);
        match self.trigger.map.get(content) {
            None => PollOutcome::MappingMiss,
            Some(v) => {
                let duplicate = match &self.cached_val {
                    Some(c) => *c == v,
                    None => false,
                };
                if duplicate {
                    PollOutcome::Unchanged
                } else {
                    self.cached_val = Some(v.clone());
                    PollOutcome::Changed(v)
                }
            },
        }
    }
}

} // verus!

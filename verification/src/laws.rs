//! The guarantees of the relay, stated over the poll model and proved once
//! and for all: debounce suppression, value deduplication, the harmlessness
//! of a mapping miss, the independence of actions, and the behaviour of the
//! initial poll at startup.

use vstd::prelude::*;
use crate::config::Action;
use crate::dispatch::{action_outcome_ok, ActionOutcome};
use crate::handler::{
    cache_view, debounced, poll_cache, poll_rel, poll_value, TriggerHandler, DEBOUNCE_MS,
};
use crate::text::trim_of;
use crate::value_map::lookup_in;

verus! {

/// Debounce: after a poll that actually read at `t1`, a second poll earlier
/// than the debounce window later changes nothing and reports nothing,
/// whatever content the file holds by then.
pub proof fn lemma_debounce_suppresses_second_poll(
    h0: TriggerHandler,
    h1: TriggerHandler,
    t1: u64,
    raw1: Seq<char>,
    r1: Option<Seq<char>>,
    h2: TriggerHandler,
    t2: u64,
    raw2: Seq<char>,
    r2: Option<Seq<char>>,
)
    requires
        poll_rel(h0, h1, t1, raw1, r1),
        !debounced(h0.last_access, t1),
        poll_rel(h1, h2, t2, raw2, r2),
        t2 < t1 + DEBOUNCE_MS,
    ensures
        h2 == h1,
        r2 is None,
{
}

/// Debounce, the permissive half: a second poll at or past the end of the
/// debounce window is not suppressed, and when the content by then resolves
/// to a value different from the cached one, that value is reported.
pub proof fn lemma_poll_past_window_reports_change(
    h1: TriggerHandler,
    t1: u64,
    h2: TriggerHandler,
    t2: u64,
    raw2: Seq<char>,
    r2: Option<Seq<char>>,
    v: Seq<char>,
)
    requires
        h1.last_access == Some(t1),
        t2 >= t1 + DEBOUNCE_MS,
        poll_rel(h1, h2, t2, raw2, r2),
        lookup_in(h1.trigger.map.entries(), trim_of(raw2)) == Some(v),
        cache_view(h1.cached_val) != Some(v),
    ensures
        !debounced(h1.last_access, t2),
        r2 == Some(v),
{
}

/// Dedup, stated on the poll model: content resolving to the cached value is
/// not reported; a report always carries a resolved value different from the
/// cache; and right after any resolving poll, content resolving to the same
/// value again is not reported, debounce window or no debounce window.
pub proof fn lemma_dedup(
    entries: Seq<(Seq<char>, Seq<char>)>,
    cache: Option<Seq<char>>,
    content: Seq<char>,
)
    ensures
        lookup_in(entries, content) == cache ==> poll_value(entries, cache, content) is None,
        poll_value(entries, cache, content) is Some ==> lookup_in(entries, content) != cache
            && poll_value(entries, cache, content) == lookup_in(entries, content),
        lookup_in(entries, content) is Some ==> poll_value(
            entries,
            poll_cache(entries, cache, content),
            content,
        ) is None,
{
}

/// Dedup across two polls: when the second poll's content resolves to the
/// same value the first poll resolved, the second reports nothing — whether
/// it falls inside the debounce window or beyond it.
pub proof fn lemma_dedup_across_polls(
    h0: TriggerHandler,
    h1: TriggerHandler,
    t1: u64,
    raw1: Seq<char>,
    r1: Option<Seq<char>>,
    h2: TriggerHandler,
    t2: u64,
    raw2: Seq<char>,
    r2: Option<Seq<char>>,
)
    requires
        poll_rel(h0, h1, t1, raw1, r1),
        !debounced(h0.last_access, t1),
        poll_rel(h1, h2, t2, raw2, r2),
        lookup_in(h0.trigger.map.entries(), trim_of(raw1)) is Some,
        lookup_in(h0.trigger.map.entries(), trim_of(raw2)) == lookup_in(
            h0.trigger.map.entries(),
            trim_of(raw1),
        ),
    ensures
        r2 is None,
{
}

/// A mapping miss is non-fatal: a poll whose content has no entry in the
/// trigger's mapping reports nothing and leaves the cached semantic value
/// exactly as it was.
pub proof fn lemma_mapping_miss(
    h1: TriggerHandler,
    h2: TriggerHandler,
    t2: u64,
    raw2: Seq<char>,
    r2: Option<Seq<char>>,
)
    requires
        poll_rel(h1, h2, t2, raw2, r2),
        lookup_in(h1.trigger.map.entries(), trim_of(raw2)) is None,
    ensures
        r2 is None,
        cache_view(h2.cached_val) == cache_view(h1.cached_val),
{
}

/// Action isolation: outcomes are per action. However the first of two
/// actions bound to the same trigger fares — no entry for the value, or a
/// failed pattern expansion — the second still runs: bound with a mapped
/// value, its outcome is a plan carrying exactly its own content, or its own
/// expansion failure; never a skip.
pub proof fn lemma_action_isolation(
    a1: Action,
    a2: Action,
    t: Seq<char>,
    v: Seq<char>,
    o1: ActionOutcome,
    o2: ActionOutcome,
    c2: Seq<char>,
)
    requires
        action_outcome_ok(a1, t, v, o1),
        action_outcome_ok(a2, t, v, o2),
        a2.bound_to(t),
        a2.mapped(v) == Some(c2),
    ensures
        !(o2 is NotBound),
        !(o2 is NoMapping),
        o2 matches ActionOutcome::Planned(ws) ==> forall|k: int|
            0 <= k < ws@.len() ==> (#[trigger] ws@[k]).content@ == c2,
{
}

/// Startup evaluation: a fresh handler is outside any debounce window, so
/// the initial poll always reads, and it reports exactly what the on-disk
/// content resolves to — in particular, content already resolving to a value
/// before the first external event is dispatched at startup.
pub proof fn lemma_startup_poll(
    h: TriggerHandler,
    h2: TriggerHandler,
    now_ms: u64,
    raw: Seq<char>,
    r: Option<Seq<char>>,
)
    requires
        h.last_access is None,
        h.cached_val is None,
        poll_rel(h, h2, now_ms, raw, r),
    ensures
        !debounced(h.last_access, now_ms),
        r == lookup_in(h.trigger.map.entries(), trim_of(raw)),
{
}

} // verus!

//! The declarative data model: triggers, actions, the loaded configuration,
//! and the runtime settings threaded through the components.

use vstd::prelude::*;
use crate::text::str_eq;
use crate::value_map::ValueMap;

verus! {

/// The kind of a trigger. An open tag: new kinds may be added without
/// touching the event routing or the dispatch logic.
pub enum TriggerKind {
    SimpleFile,
}

/// A named, file-bound source of semantic values. `name` is the join key
/// that actions bind to; `map` resolves trimmed raw file content to a
/// semantic value.
pub struct Trigger {
    pub name: String,
    pub kind: TriggerKind,
    pub file: String,
    pub map: ValueMap,
}

/// A consumer of a trigger's values. `trigger` names the trigger listened
/// to, `file` is a glob pattern selecting the files written, and `values`
/// resolves a semantic value to the output content.
pub enum Action {
    SimpleFile { trigger: String, file: String, values: ValueMap },
}

impl Action {
    /// Whether this action listens to the trigger named `t`.
    pub open spec fn bound_to(&self, t: Seq<char>) -> bool {
        match self {
            Action::SimpleFile { trigger, .. } => trigger@ == t,
        }
    }

    /// The output content this action derives from the semantic value `v`,
    /// if its value table has an entry for it.
    pub open spec fn mapped(&self, v: Seq<char>) -> Option<Seq<char>> {
        match self {
            Action::SimpleFile { values, .. } => values.spec_get(v),
        }
    }

    /// The name of the trigger this action listens to.
    pub open spec fn trigger_name(&self) -> Seq<char> {
        match self {
            Action::SimpleFile { trigger, .. } => trigger@,
        }
    }

    /// The name of the trigger this action listens to.
    pub fn bound_trigger(&self) -> (r: &String)
        ensures
            r@ == self.trigger_name(),
    {
        match self {
            Action::SimpleFile { trigger, .. } => trigger,
        }
    }
}

/// Everything loaded at startup: the action and trigger definitions, in
/// declaration order. Read-only for the rest of the run.
pub struct Config {
    pub action: Vec<Action>,
    pub trigger: Vec<Trigger>,
}

impl Config {
    /// The declared trigger names, in declaration order.
    pub open spec fn trigger_names(&self) -> Seq<Seq<char>> {
        Seq::new(self.trigger@.len(), |i: int| self.trigger@[i].name@)
    }

    /// No two triggers share a name: the name is the join key actions bind
    /// to, so a duplicate would make the binding ambiguous.
    pub open spec fn names_unique(&self) -> bool {
        forall|i: int, j: int|
            0 <= i < j < self.trigger@.len()
                ==> self.trigger@[i].name@ != self.trigger@[j].name@
    }

    /// Every action names a trigger that is actually declared.
    pub open spec fn actions_bound(&self) -> bool {
        forall|i: int| 0 <= i < self.action@.len()
            ==> self.trigger_names().contains((#[trigger] self.action@[i]).trigger_name())
    }

    /// Whether some declared trigger is named `t`.
    pub fn has_trigger_named(&self, t: &str) -> (r: bool)
        ensures
            r == self.trigger_names().contains(t@),
    {
        let mut i: usize = 0;
        while i < self.trigger.len()
            invariant
                i <= self.trigger@.len(),
                forall|k: int| 0 <= k < i ==> self.trigger@[k].name@ != t@,
            decreases self.trigger@.len() - i,
        {
            if str_eq(self.trigger[i].name.as_str(), t) {
                proof {
                    assert(self.trigger_names()[i as int] == t@);
                }
                return true;
            }
            i = i + 1;
        }
        false
    }

    /// Load-time validation: accept the configuration exactly when every
    /// trigger name is unique and every action is bound to a declared
    /// trigger. Meant to run once, before any watch is installed.
    pub fn validate(&self) -> (r: bool)
        ensures
            r == (self.names_unique() && self.actions_bound()),
    {
        let n = self.trigger.len();
        let mut i: usize = 0;
        while i < n
            invariant
                n == self.trigger@.len(),
                i <= n,
                forall|a: int, b: int| 0 <= a < b < n && a < i
                    ==> self.trigger@[a].name@ != self.trigger@[b].name@,
            decreases n - i,
        {
            let mut j: usize = i + 1;
            while j < n
                invariant
                    n == self.trigger@.len(),
                    i < j <= n,
                    forall|b: int| i < b < j ==> self.trigger@[i as int].name@ != self.trigger@[b].name@,
                decreases n - j,
            {
                if str_eq(self.trigger[i].name.as_str(), self.trigger[j].name.as_str()) {
                    return false;
                }
                j = j + 1;
            }
            i = i + 1;
        }
        let mut k: usize = 0;
        while k < self.action.len()
            invariant
                self.names_unique(),
                k <= self.action@.len(),
                forall|a: int| 0 <= a < k
                    ==> self.trigger_names().contains((#[trigger] self.action@[a]).trigger_name()),
            decreases self.action@.len() - k,
        {
            if !self.has_trigger_named(self.action[k].bound_trigger().as_str()) {
                return false;
            }
            k = k + 1;
        }
        true
    }
}

/// Runtime settings passed explicitly to whoever needs them.
pub struct Settings {
    pub verbose: bool,
}

/// Whether diagnostic output was asked for.
pub fn verbose(settings: &Settings) -> (r: bool)
    ensures
        r == settings.verbose,
{
    settings.verbose
}

} // verus!

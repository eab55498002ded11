//! Action dispatch: fan a trigger's newly resolved value out to every action
//! bound to that trigger, and plan the file writes each one asks for.
//!
//! The glob pattern of an action is re-expanded against the filesystem at
//! every dispatch, so files that appear after startup are picked up. The
//! writes themselves are returned as a plan; the surrounding program
//! performs them.

use vstd::prelude::*;
use crate::config::{Action, Config};
use crate::text::str_eq;

verus! {

/// One planned file write: `content` replaces the whole of the file at
/// `path`.
pub struct WriteOp {
    pub path: String,
    pub content: String,
}

/// Why expanding an action's glob pattern failed.
pub enum DispatchError {
    /// The pattern itself is not valid glob syntax.
    BadPattern,
    /// Reading the filesystem while matching the pattern failed.
    ExpandFailed,
}

/// What one action did with a dispatched value.
pub enum ActionOutcome {
    /// The action listens to a different trigger; nothing to do.
    NotBound,
    /// The action has no output content for this value; reported as a
    /// warning by the caller, nothing written.
    NoMapping,
    /// The writes the action asks for, one per file currently matching its
    /// pattern.
    Planned(Vec<WriteOp>),
    /// Expanding the action's pattern failed; nothing written for this
    /// action, other actions are unaffected.
    Failed(DispatchError),
}

/// Relies on `glob::glob`: expands a shell-style pattern (`*`, `?`,
/// character classes) to the paths currently matching it on the filesystem.
/// Which paths come back depends on the filesystem at the time of the call,
/// so nothing is claimed of them.
#[verifier::external_body]
pub(crate) fn expand_glob(pattern: &str) -> (r: Result<Vec<String>, DispatchError>)
{
    match glob::glob(pattern) {
        Err(_) => Err(DispatchError::BadPattern),
        Ok(paths) => {
            let mut out = Vec::new();
            for p in paths {
                match p {
                    Ok(path) => out.push(path.display().to_string()),
                    Err(_) => return Err(DispatchError::ExpandFailed),
                }
            }
            Ok(out)
        },
    }
}

/// One write of `content` for each of `paths`, in order.
pub fn make_writes(paths: Vec<String>, content: &String) -> (r: Vec<WriteOp>)
    ensures
        r@.len() == paths@.len(),
        forall|i: int| 0 <= i < r@.len() ==> (#[trigger] r@[i]).path@ == paths@[i]@
            && r@[i].content@ == content@,
{
    let mut r: Vec<WriteOp> = Vec::new();
    let mut i: usize = 0;
    while i < paths.len()
        invariant
            i <= paths@.len(),
            r@.len() == i,
            forall|k: int| 0 <= k < i ==> (#[trigger] r@[k]).path@ == paths@[k]@
                && r@[k].content@ == content@,
        decreases paths@.len() - i,
    {
        let op = WriteOp { path: paths[i].clone(), content: content.clone() };
        r.push(op);
        i = i + 1;
    }
    r
}

/// What a correct outcome of dispatching `(t, v)` to the action `a` looks
/// like: an action bound to another trigger reports `NotBound`; a bound
/// action without content for `v` reports `NoMapping`; a bound action with
/// content either plans writes that all carry exactly that content, or
/// reports that expanding its pattern failed.
pub open spec fn action_outcome_ok(a: Action, t: Seq<char>, v: Seq<char>, o: ActionOutcome) -> bool {
    if !a.bound_to(t) {
        o is NotBound
    } else {
        match a.mapped(v) {
            None => o is NoMapping,
            Some(c) => match o {
                ActionOutcome::Planned(ws) => forall|k: int|
                    0 <= k < ws@.len() ==> (#[trigger] ws@[k]).content@ == c,
                ActionOutcome::Failed(_) => true,
                _ => false,
            },
        }
    }
}

impl Action {
    /// React to the value `value` newly resolved by the trigger named `t`:
    /// skip if not bound to `t`, otherwise derive the output content and
    /// plan one write of it per file currently matching the pattern.
    pub fn on_trigger(&self, t: &str, value: &str) -> (r: ActionOutcome)
        ensures
            action_outcome_ok(*self, t@, value@, r),
    {
        match self {
            Action::SimpleFile { trigger, file, values } => {
                if !str_eq(trigger.as_str(), t) {
                    return ActionOutcome::NotBound;
                }
                match values.get(value) {
                    None => ActionOutcome::NoMapping,
                    Some(content) => match expand_glob(file.as_str()) {
                        Err(e) => ActionOutcome::Failed(e),
                        Ok(paths) => ActionOutcome::Planned(make_writes(paths, &content)),
                    },
                }
            },
        }
    }
}

impl Config {
    /// Dispatch `(trig, value)` to every action in declaration order. Each
    /// action's outcome stands on its own: a miss or a failure in one action
    /// never changes what another action does.
    pub fn on_trigger(&self, trig: &str, value: &str) -> (r: Vec<ActionOutcome>)
        ensures
            r@.len() == self.action@.len(),
            forall|i: int| 0 <= i < r@.len() ==>
                action_outcome_ok(self.action@[i], trig@, value@, #[trigger] r@[i]),
    {
        let mut out: Vec<ActionOutcome> = Vec::new();
        let mut i: usize = 0;
        while i < self.action.len()
            invariant
                i <= self.action@.len(),
                out@.len() == i,
                forall|k: int| 0 <= k < i ==>
                    action_outcome_ok(self.action@[k], trig@, value@, #[trigger] out@[k]),
            decreases self.action@.len() - i,
        {
            let o = self.action[i].on_trigger(trig, value);
            out.push(o);
            i = i + 1;
        }
        out
    }
}

} // verus!

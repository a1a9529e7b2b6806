//! The error taxonomy of the lifecycle state machine.
//!
//! An illegal trigger is routine, expected traffic: it is reported to the
//! caller and never mutates state. A hook failure is escalated by the
//! controller itself into the fault path and surfaced wrapped, so a
//! component that fails mid-transition becomes observably `Faulted` rather
//! than stuck claiming a healthy state. An unrecognized string at a
//! serialization boundary is rejected outright.

use vstd::prelude::*;

use vstd::string::StringExecFns;

use crate::component::ComponentState;
use crate::component::ComponentTrigger;

verus! {

/// A requested trigger has no transition-table entry for the current
/// state. Recoverable: the caller decides whether to re-trigger.
#[derive(Copy, Clone, Debug, PartialEq, Eq, Structural)]
pub struct InvalidTransition {
    /// The state the component was in when the trigger was rejected.
    pub from: ComponentState,
    /// The rejected trigger.
    pub trigger: ComponentTrigger,
}

impl InvalidTransition {
    /// A report of the rejection, exactly `"cannot apply trigger X while
    /// in state Y"` with the canonical forms of the trigger and state.
    pub fn describe(&self) -> (r: String)
        ensures
            r@ == "cannot apply trigger "@ + self.trigger.name_spec() + " while in state "@
                + self.from.name_spec(),
    {
        let mut s = String::new();
        s.append("cannot apply trigger ");
        s.append(self.trigger.as_str());
        s.append(" while in state ");
        s.append(self.from.as_str());
        s
    }
}

/// A registered hook signaled an error while the component was entering a
/// transient state. The controller recovers by applying `Fault` itself;
/// the component ends observably `Faulted`, and this error carries the
/// hook's original failure together with the lifecycle context.
#[derive(Clone, Debug, PartialEq, Eq)]
pub struct HookFailure {
    /// The state the component was in when the failed transition began.
    pub from: ComponentState,
    /// The transient state whose hook failed.
    pub attempted: ComponentState,
    /// The failure the hook reported.
    pub message: String,
}

/// What the lifecycle controller reports when a trigger is not carried
/// through: the trigger was illegal, or its hook failed.
#[derive(Clone, Debug, PartialEq, Eq)]
pub enum LifecycleError {
    /// The trigger was rejected; the state is unchanged.
    Rejected(InvalidTransition),
    /// The hook failed; the component is now `Faulted`.
    HookFailed(HookFailure),
}

/// A string failed to parse into a known enumeration value at a
/// serialization boundary. Fatal to that call: the value is never
/// silently coerced to a default.
#[derive(Clone, Debug, PartialEq, Eq)]
pub struct UnknownValue {
    /// The string that named no known value.
    pub value: String,
}

impl UnknownValue {
    /// Records `s` as the unrecognized string.
    pub fn new(s: &str) -> (r: UnknownValue)
        ensures
            r.value@ == s@,
    {
        UnknownValue { value: s.to_owned() }
    }
}

} // verus!

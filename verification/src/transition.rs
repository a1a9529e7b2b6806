//! The transition table of the component lifecycle.
//!
//! A pure, total and deterministic function from `(state, trigger)` to
//! either the unique destination state or an explicit rejection. Pairs not
//! present in the table are illegal by definition: there is no implicit
//! fallback and no closest match. The table is data, not behavior; it is
//! fixed and safe to share read-only across all component instances.

use vstd::prelude::*;

use crate::component::ComponentState;
use crate::component::ComponentTrigger;
use crate::errors::InvalidTransition;

verus! {

/// Whether a component in state `s` is active: initialized, not yet
/// disposed, and not in or beyond the fault path. `Fault` may be
/// triggered from exactly the active states.
pub open spec fn is_active(s: ComponentState) -> bool {
    !(s is PreInitialized || s is Disposed || s is Faulting || s is Faulted)
}

/// Whether `s` is a transient (in-progress) state: entered by an intent
/// trigger, left by the matching completion trigger, and the only states
/// for which a component may register a hook.
pub open spec fn is_transient(s: ComponentState) -> bool {
    ||| s is Starting
    ||| s is Stopping
    ||| s is Resuming
    ||| s is Resetting
    ||| s is Disposing
    ||| s is Degrading
    ||| s is Faulting
}

/// The transition table: the unique destination of applying trigger `t`
/// in state `s`, or `None` when the pair is illegal.
pub open spec fn transition_of(s: ComponentState, t: ComponentTrigger) -> Option<ComponentState> {
    match t {
        ComponentTrigger::Initialize => match s {
            ComponentState::PreInitialized => Some(ComponentState::PostInitialized),
            _ => None,
        },
        ComponentTrigger::Start => match s {
            ComponentState::PostInitialized | ComponentState::Stopped => Some(
                ComponentState::Starting,
            ),
            _ => None,
        },
        ComponentTrigger::StartCompleted => match s {
            ComponentState::Starting => Some(ComponentState::Running),
            _ => None,
        },
        ComponentTrigger::Stop => match s {
            ComponentState::Running | ComponentState::Degraded => Some(ComponentState::Stopping),
            _ => None,
        },
        ComponentTrigger::StopCompleted => match s {
            ComponentState::Stopping => Some(ComponentState::Stopped),
            _ => None,
        },
        ComponentTrigger::Resume => match s {
            ComponentState::Stopped => Some(ComponentState::Resuming),
            _ => None,
        },
        ComponentTrigger::ResumeCompleted => match s {
            ComponentState::Resuming => Some(ComponentState::Running),
            _ => None,
        },
        ComponentTrigger::Reset => match s {
            ComponentState::Stopped | ComponentState::PostInitialized => Some(
                ComponentState::Resetting,
            ),
            _ => None,
        },
        ComponentTrigger::ResetCompleted => match s {
            ComponentState::Resetting => Some(ComponentState::PostInitialized),
            _ => None,
        },
        ComponentTrigger::Dispose => match s {
            ComponentState::Stopped | ComponentState::PostInitialized => Some(
                ComponentState::Disposing,
            ),
            _ => None,
        },
        ComponentTrigger::DisposeCompleted => match s {
            ComponentState::Disposing => Some(ComponentState::Disposed),
            _ => None,
        },
        ComponentTrigger::Degrade => match s {
            ComponentState::Running => Some(ComponentState::Degrading),
            _ => None,
        },
        ComponentTrigger::DegradeCompleted => match s {
            ComponentState::Degrading => Some(ComponentState::Degraded),
            _ => None,
        },
        ComponentTrigger::Fault => if is_active(s) {
            Some(ComponentState::Faulting)
        } else {
            None
        },
        ComponentTrigger::FaultCompleted => match s {
            ComponentState::Faulting => Some(ComponentState::Faulted),
            _ => None,
        },
    }
}

/// One hook-free application of trigger `t` in state `s`: the state after
/// the application and the reported result. An accepted trigger commits
/// the destination; a rejected one leaves the state unchanged and reports
/// which trigger was rejected in which state.
pub open spec fn apply_trigger(s: ComponentState, t: ComponentTrigger) -> (
    ComponentState,
    Result<ComponentState, InvalidTransition>,
) {
    match transition_of(s, t) {
        Some(d) => (d, Ok(d)),
        None => (s, Err(InvalidTransition { from: s, trigger: t })),
    }
}

/// Looks up `(s, t)` in the transition table: the unique destination
/// state, or an `InvalidTransition` rejection carrying `s` and `t`.
pub fn transition(s: ComponentState, t: ComponentTrigger) -> (r: Result<
    ComponentState,
    InvalidTransition,
>)
    ensures
        r == apply_trigger(s, t).1,
        r matches Ok(d) ==> transition_of(s, t) == Some(d),
        r matches Err(e) ==> transition_of(s, t) is None && e == (InvalidTransition {
            from: s,
            trigger: t,
        }),
{
    match transition_of_exec(s, t) {
        Some(d) => Ok(d),
        None => Err(InvalidTransition { from: s, trigger: t }),
    }
}

/// The transition table as executable code, mirroring `transition_of`
/// entry for entry.
pub fn transition_of_exec(s: ComponentState, t: ComponentTrigger) -> (r: Option<ComponentState>)
    ensures
        r == transition_of(s, t),
{
    match t {
        ComponentTrigger::Initialize => match s {
            ComponentState::PreInitialized => Some(ComponentState::PostInitialized),
            _ => None,
        },
        ComponentTrigger::Start => match s {
            ComponentState::PostInitialized | ComponentState::Stopped => Some(
                ComponentState::Starting,
            ),
            _ => None,
        },
        ComponentTrigger::StartCompleted => match s {
            ComponentState::Starting => Some(ComponentState::Running),
            _ => None,
        },
        ComponentTrigger::Stop => match s {
            ComponentState::Running | ComponentState::Degraded => Some(ComponentState::Stopping),
            _ => None,
        },
        ComponentTrigger::StopCompleted => match s {
            ComponentState::Stopping => Some(ComponentState::Stopped),
            _ => None,
        },
        ComponentTrigger::Resume => match s {
            ComponentState::Stopped => Some(ComponentState::Resuming),
            _ => None,
        },
        ComponentTrigger::ResumeCompleted => match s {
            ComponentState::Resuming => Some(ComponentState::Running),
            _ => None,
        },
        ComponentTrigger::Reset => match s {
            ComponentState::Stopped | ComponentState::PostInitialized => Some(
                ComponentState::Resetting,
            ),
            _ => None,
        },
        ComponentTrigger::ResetCompleted => match s {
            ComponentState::Resetting => Some(ComponentState::PostInitialized),
            _ => None,
        },
        ComponentTrigger::Dispose => match s {
            ComponentState::Stopped | ComponentState::PostInitialized => Some(
                ComponentState::Disposing,
            ),
            _ => None,
        },
        ComponentTrigger::DisposeCompleted => match s {
            ComponentState::Disposing => Some(ComponentState::Disposed),
            _ => None,
        },
        ComponentTrigger::Degrade => match s {
            ComponentState::Running => Some(ComponentState::Degrading),
            _ => None,
        },
        ComponentTrigger::DegradeCompleted => match s {
            ComponentState::Degrading => Some(ComponentState::Degraded),
            _ => None,
        },
        ComponentTrigger::Fault => match s {
            ComponentState::PreInitialized
            | ComponentState::Disposed
            | ComponentState::Faulting
            | ComponentState::Faulted => None,
            _ => Some(ComponentState::Faulting),
        },
        ComponentTrigger::FaultCompleted => match s {
            ComponentState::Faulting => Some(ComponentState::Faulted),
            _ => None,
        },
    }
}

/// Rejection is idempotent: an illegal trigger leaves the state unchanged,
/// so issuing the same trigger again is rejected too, and both
/// applications report the identical `InvalidTransition` error.
pub proof fn lemma_rejection_idempotent(s: ComponentState, t: ComponentTrigger)
    requires
        transition_of(s, t) is None,
    ensures
        ({
            let (s1, r1) = apply_trigger(s, t);
            let (s2, r2) = apply_trigger(s1, t);
            &&& s1 == s
            &&& s2 == s
            &&& r1 == r2
            &&& r1 == Err::<ComponentState, InvalidTransition>(
                InvalidTransition { from: s, trigger: t },
            )
        }),
{
}

/// Fault absorption: from any active state, `Fault` followed by
/// `FaultCompleted` always reaches `Faulted`, regardless of which active
/// state it started from.
pub proof fn lemma_fault_absorption(s: ComponentState)
    requires
        is_active(s),
    ensures
        transition_of(s, ComponentTrigger::Fault) == Some(ComponentState::Faulting),
        transition_of(ComponentState::Faulting, ComponentTrigger::FaultCompleted) == Some(
            ComponentState::Faulted,
        ),
{
}

/// No double commit: once a trigger has been accepted, the same trigger is
/// illegal from the destination state. Of several serialized callers
/// issuing one trigger event, exactly the first succeeds; every later one
/// is rejected, because the state no longer matches the trigger's
/// precondition.
pub proof fn lemma_no_double_commit(s: ComponentState, t: ComponentTrigger, d: ComponentState)
    requires
        transition_of(s, t) == Some(d),
    ensures
        transition_of(d, t) is None,
{
}

/// Whether `t` is a completion trigger: issued by the component itself
/// once its hook finishes, acknowledging that the matching intent
/// succeeded. Every other trigger is an intent, issued by a controlling
/// actor.
pub open spec fn is_completion(t: ComponentTrigger) -> bool {
    ||| t is StartCompleted
    ||| t is StopCompleted
    ||| t is ResumeCompleted
    ||| t is ResetCompleted
    ||| t is DisposeCompleted
    ||| t is DegradeCompleted
    ||| t is FaultCompleted
}

/// Every transient state has a legal completion trigger: an in-progress
/// component can always acknowledge that its hook finished.
pub proof fn lemma_transient_has_completion(s: ComponentState)
    requires
        is_transient(s),
    ensures
        exists|t: ComponentTrigger| is_completion(t) && #[trigger] transition_of(s, t) is Some,
{
    match s {
        ComponentState::Starting => {
            assert(transition_of(s, ComponentTrigger::StartCompleted) is Some);
        },
        ComponentState::Stopping => {
            assert(transition_of(s, ComponentTrigger::StopCompleted) is Some);
        },
        ComponentState::Resuming => {
            assert(transition_of(s, ComponentTrigger::ResumeCompleted) is Some);
        },
        ComponentState::Resetting => {
            assert(transition_of(s, ComponentTrigger::ResetCompleted) is Some);
        },
        ComponentState::Disposing => {
            assert(transition_of(s, ComponentTrigger::DisposeCompleted) is Some);
        },
        ComponentState::Degrading => {
            assert(transition_of(s, ComponentTrigger::DegradeCompleted) is Some);
        },
        _ => {
            assert(transition_of(s, ComponentTrigger::FaultCompleted) is Some);
        },
    }
}

/// Every transient state has at most one legal completion trigger, and
/// no completion trigger is legal anywhere else: the table is symmetric
/// in spirit, pairing each in-progress state with exactly one
/// acknowledgement.
pub proof fn lemma_completion_unique(s: ComponentState, t1: ComponentTrigger, t2: ComponentTrigger)
    requires
        is_completion(t1),
        is_completion(t2),
        transition_of(s, t1) is Some,
        transition_of(s, t2) is Some,
    ensures
        t1 == t2,
        is_transient(s),
{
}

/// Entering a transient state only ever begins in an active state, so an
/// escalation to `Fault` after a failed hook is itself a pair of legal
/// table moves, whatever transition was being attempted.
pub proof fn lemma_transient_entered_from_active(
    s: ComponentState,
    t: ComponentTrigger,
    d: ComponentState,
)
    requires
        transition_of(s, t) == Some(d),
        is_transient(d),
    ensures
        is_active(s),
        transition_of(s, ComponentTrigger::Fault) == Some(ComponentState::Faulting),
        transition_of(ComponentState::Faulting, ComponentTrigger::FaultCompleted) == Some(
            ComponentState::Faulted,
        ),
{
}

/// A legal trace of the state machine: `states` has one more entry than
/// `triggers`, and each consecutive pair of states is linked by the
/// transition-table entry for the trigger between them.
pub open spec fn is_trace(states: Seq<ComponentState>, triggers: Seq<ComponentTrigger>) -> bool {
    &&& states.len() == triggers.len() + 1
    &&& forall|i: int|
        0 <= i < triggers.len() ==> transition_of(states[i], triggers[i]) == Some(states[i + 1])
}

/// The states a run can only occupy after its first start has begun:
/// every way into this set from outside it goes through `Starting`.
pub open spec fn is_post_start(s: ComponentState) -> bool {
    ||| s is Running
    ||| s is Stopping
    ||| s is Stopped
    ||| s is Resuming
    ||| s is Degrading
    ||| s is Degraded
}

/// Every table entry into a post-start state comes from `Starting` or
/// from another post-start state.
pub proof fn lemma_post_start_closed(s: ComponentState, t: ComponentTrigger, d: ComponentState)
    requires
        transition_of(s, t) == Some(d),
        is_post_start(d),
    ensures
        s is Starting || is_post_start(s),
{
}

/// No skipped phases, first half: along any legal trace that begins in
/// `PreInitialized`, `Running` is reached only after the trace has passed
/// through `Starting`.
pub proof fn lemma_running_requires_starting(
    states: Seq<ComponentState>,
    triggers: Seq<ComponentTrigger>,
    i: int,
)
    requires
        is_trace(states, triggers),
        states[0] is PreInitialized,
        0 <= i < states.len(),
        states[i] is Running,
    ensures
        exists|j: int| 0 <= j < i && states[j] is Starting,
    decreases i,
{
    lemma_post_start_reached(states, triggers, i);
}

/// Along any legal trace out of `PreInitialized`, a post-start state is
/// reached only after the trace has passed through `Starting`.
proof fn lemma_post_start_reached(
    states: Seq<ComponentState>,
    triggers: Seq<ComponentTrigger>,
    i: int,
)
    requires
        is_trace(states, triggers),
        states[0] is PreInitialized,
        0 <= i < states.len(),
        is_post_start(states[i]),
    ensures
        exists|j: int| 0 <= j < i && states[j] is Starting,
    decreases i,
{
    lemma_post_start_closed(states[i - 1], triggers[i - 1], states[i]);
    if states[i - 1] is Starting {
        assert(0 <= i - 1 < i && states[i - 1] is Starting);
    } else {
        lemma_post_start_reached(states, triggers, i - 1);
        let j = choose|j: int| 0 <= j < i - 1 && states[j] is Starting;
        assert(0 <= j < i && states[j] is Starting);
    }
}

/// No skipped phases, second half: along any legal trace that begins in
/// `PreInitialized`, `Stopped` is reached only directly from `Stopping`.
pub proof fn lemma_stopped_requires_stopping(
    states: Seq<ComponentState>,
    triggers: Seq<ComponentTrigger>,
    i: int,
)
    requires
        is_trace(states, triggers),
        states[0] is PreInitialized,
        0 <= i < states.len(),
        states[i] is Stopped,
    ensures
        exists|j: int| 0 <= j < i && states[j] is Stopping,
{
    assert(transition_of(states[i - 1], triggers[i - 1]) == Some(states[i]));
    assert(states[i - 1] is Stopping);
}

} // verus!

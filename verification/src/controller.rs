//! The lifecycle controller: one instance per managed component.
//!
//! The controller owns the component's current state and mediates every
//! transition. A trigger is looked up in the transition table; on a miss
//! the state is unchanged and the caller gets the rejection. On a hit the
//! controller runs the component's hook for the destination state; when
//! the hook succeeds (or no work is registered) the destination is
//! committed and reported to the logging collaborator. When the hook
//! fails, the controller escalates by applying `Fault` itself, so the
//! component ends observably `Faulted` rather than stuck claiming a
//! healthy state, and the caller gets the hook's failure wrapped with the
//! lifecycle context.
//!
//! Concurrent callers are serialized by exclusive access to the
//! controller: one trigger is applied at a time, so two triggers are never
//! evaluated against the same stale state.

use vstd::prelude::*;

use crate::component::ComponentState;
use crate::component::ComponentTrigger;
use crate::errors::HookFailure;
use crate::errors::InvalidTransition;
use crate::errors::LifecycleError;
use crate::transition::is_transient;
use crate::transition::transition;
use crate::transition::transition_of;

verus! {

/// The hooks a component exposes for its transient states. Entering a
/// transient state runs the matching hook; a hook reports success or a
/// descriptive failure. Every hook is a no-op success by default, which
/// is what an absent hook means.
pub trait LifecycleHooks {
    /// Runs when the component enters `Starting`.
    fn on_start(&mut self) -> Result<(), String> {
        Ok(())
    }

    /// Runs when the component enters `Stopping`.
    fn on_stop(&mut self) -> Result<(), String> {
        Ok(())
    }

    /// Runs when the component enters `Resuming`.
    fn on_resume(&mut self) -> Result<(), String> {
        Ok(())
    }

    /// Runs when the component enters `Resetting`.
    fn on_reset(&mut self) -> Result<(), String> {
        Ok(())
    }

    /// Runs when the component enters `Disposing`.
    fn on_dispose(&mut self) -> Result<(), String> {
        Ok(())
    }

    /// Runs when the component enters `Degrading`.
    fn on_degrade(&mut self) -> Result<(), String> {
        Ok(())
    }

    /// Runs when the component enters `Faulting`.
    fn on_fault(&mut self) -> Result<(), String> {
        Ok(())
    }
}

/// The logging collaborator. The controller reports every accepted
/// transition and every rejection here; it has no knowledge of how or
/// whether the records are persisted, and never depends on them.
pub trait LogSink {
    /// Records a committed state change, with the component identifier,
    /// the old and new state, the trigger that caused it, and a
    /// caller-supplied timestamp in nanoseconds.
    fn record_state_change(
        &mut self,
        component_id: &str,
        old_state: ComponentState,
        new_state: ComponentState,
        t: ComponentTrigger,
        ts_ns: u64,
    );

    /// Records the rejection of an illegal trigger, with the same shape
    /// plus the rejected trigger.
    fn record_warning(
        &mut self,
        component_id: &str,
        state: ComponentState,
        rejected: ComponentTrigger,
        ts_ns: u64,
    );
}

/// Owns one component's current state and serializes trigger application
/// against the transition table. The state is mutated exclusively through
/// [`LifecycleController::trigger`], so an outside reader only ever
/// observes a committed state.
pub struct LifecycleController {
    state: ComponentState,
    id: String,
}

impl LifecycleController {
    /// The component's current state.
    pub closed spec fn current(&self) -> ComponentState {
        self.state
    }

    /// The component's identifier.
    pub closed spec fn id_spec(&self) -> Seq<char> {
        self.id@
    }

    /// Registers a component: a fresh controller in `PreInitialized`.
    pub fn new(id: String) -> (r: LifecycleController)
        ensures
            r.current() is PreInitialized,
            r.id_spec() == id@,
    {
        LifecycleController { state: ComponentState::PreInitialized, id }
    }

    /// Reads the current state; always one of the fourteen defined values
    /// and always the last committed one.
    pub fn state(&self) -> (r: ComponentState)
        ensures
            r == self.current(),
    {
        self.state
    }

    /// Reads the component identifier.
    pub fn id(&self) -> (r: &str)
        ensures
            r@ == self.id_spec(),
    {
        self.id.as_str()
    }

    /// Applies trigger `t`: consults the transition table, runs the hook
    /// of the destination state, commits on success and reports the
    /// change to `sink`.
    ///
    /// An illegal trigger leaves the state unchanged and is returned as a
    /// recoverable rejection carrying the current state and the trigger.
    /// A legal trigger whose destination registers no hook work always
    /// succeeds. When the hook fails, the controller applies `Fault` and
    /// `FaultCompleted` itself — entering a transient state is only ever
    /// attempted from an active state, so the fault path is always legal —
    /// and returns the hook's failure wrapped with the lifecycle context;
    /// the component is then observably `Faulted`.
    pub fn trigger<H: LifecycleHooks, L: LogSink>(
        &mut self,
        hooks: &mut H,
        sink: &mut L,
        t: ComponentTrigger,
        ts_ns: u64,
    ) -> (r: Result<ComponentState, LifecycleError>)
        ensures
            final(self).id_spec() == old(self).id_spec(),
            match transition_of(old(self).current(), t) {
                None => {
                    &&& final(self).current() == old(self).current()
                    &&& r == Err::<ComponentState, LifecycleError>(
                        LifecycleError::Rejected(
                            InvalidTransition { from: old(self).current(), trigger: t },
                        ),
                    )
                },
                Some(d) => {
                    &&& (r matches Ok(n) ==> n == d && final(self).current() == d)
                    &&& (r matches Err(e) ==> {
                        &&& e matches LifecycleError::HookFailed(h)
                        &&& h.from == old(self).current()
                        &&& h.attempted == d
                        &&& final(self).current() is Faulted
                    })
                    &&& !is_transient(d) ==> r == Ok::<ComponentState, LifecycleError>(d)
                },
            },
    {
        let from = self.state;
        match transition(from, t) {
            Err(e) => {
                sink.record_warning(self.id.as_str(), from, t, ts_ns);
                Err(LifecycleError::Rejected(e))
            },
            Ok(dest) => {
                match Self::run_hook(hooks, dest) {
                    Ok(()) => {
                        self.state = dest;
                        sink.record_state_change(self.id.as_str(), from, dest, t, ts_ns);
                        Ok(dest)
                    },
                    Err(message) => {
                        proof {
                            // The failed hook means `dest` is transient, so
                            // `from` is active and the fault escalation below
                            // follows two legal table entries.
                            crate::transition::lemma_transient_entered_from_active(from, t, dest);
                            assert(transition_of(from, ComponentTrigger::Fault) == Some(
                                ComponentState::Faulting,
                            ));
                            assert(transition_of(
                                ComponentState::Faulting,
                                ComponentTrigger::FaultCompleted,
                            ) == Some(ComponentState::Faulted));
                        }
                        let already_faulting = matches!(dest, ComponentState::Faulting);
                        self.state = ComponentState::Faulting;
                        sink.record_state_change(
                            self.id.as_str(),
                            from,
                            ComponentState::Faulting,
                            ComponentTrigger::Fault,
                            ts_ns,
                        );
                        if !already_faulting {
                            // The fault path still runs the component's fault
                            // hook; the escalation proceeds to Faulted whatever
                            // that hook reports, so a second failure cannot
                            // leave the component mid-fault.
                            let _ = hooks.on_fault();
                        }
                        self.state = ComponentState::Faulted;
                        sink.record_state_change(
                            self.id.as_str(),
                            ComponentState::Faulting,
                            ComponentState::Faulted,
                            ComponentTrigger::FaultCompleted,
                            ts_ns,
                        );
                        Err(
                            LifecycleError::HookFailed(
                                HookFailure { from, attempted: dest, message },
                            ),
                        )
                    },
                }
            },
        }
    }

    /// Runs the hook registered for entering `dest`; entering a state
    /// without a hook is an immediate no-op success.
    fn run_hook<H: LifecycleHooks>(hooks: &mut H, dest: ComponentState) -> (r: Result<
        (),
        String,
    >)
        ensures
            r is Err ==> is_transient(dest),
            !is_transient(dest) ==> r == Ok::<(), String>(()),
    {
        match dest {
            ComponentState::Starting => hooks.on_start(),
            ComponentState::Stopping => hooks.on_stop(),
            ComponentState::Resuming => hooks.on_resume(),
            ComponentState::Resetting => hooks.on_reset(),
            ComponentState::Disposing => hooks.on_dispose(),
            ComponentState::Degrading => hooks.on_degrade(),
            ComponentState::Faulting => hooks.on_fault(),
            _ => Ok(()),
        }
    }
}

} // verus!

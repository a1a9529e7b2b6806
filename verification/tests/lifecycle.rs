//! Tests of the transition table and the lifecycle controller.

use component_lifecycle::component::ComponentState;
use component_lifecycle::component::ComponentTrigger;
use component_lifecycle::controller::LifecycleController;
use component_lifecycle::controller::LifecycleHooks;
use component_lifecycle::controller::LogSink;
use component_lifecycle::errors::InvalidTransition;
use component_lifecycle::errors::LifecycleError;
use component_lifecycle::transition::transition;
use component_lifecycle::transition::transition_of_exec;

use ComponentState::PreInitialized;
use ComponentState::PostInitialized;
use ComponentState::Starting;
use ComponentState::Running;
use ComponentState::Stopping;
use ComponentState::Stopped;
use ComponentState::Resuming;
use ComponentState::Resetting;
use ComponentState::Disposing;
use ComponentState::Disposed;
use ComponentState::Degrading;
use ComponentState::Degraded;
use ComponentState::Faulting;
use ComponentState::Faulted;
use ComponentTrigger::Initialize;
use ComponentTrigger::Start;
use ComponentTrigger::StartCompleted;
use ComponentTrigger::Stop;
use ComponentTrigger::StopCompleted;
use ComponentTrigger::Resume;
use ComponentTrigger::ResumeCompleted;
use ComponentTrigger::Reset;
use ComponentTrigger::ResetCompleted;
use ComponentTrigger::Dispose;
use ComponentTrigger::DisposeCompleted;
use ComponentTrigger::Degrade;
use ComponentTrigger::DegradeCompleted;
use ComponentTrigger::Fault;
use ComponentTrigger::FaultCompleted;

fn all_states() -> Vec<ComponentState> {
    vec![
        PreInitialized,
        PostInitialized,
        Starting,
        Running,
        Stopping,
        Stopped,
        Resuming,
        Resetting,
        Disposing,
        Disposed,
        Degrading,
        Degraded,
        Faulting,
        Faulted,
    ]
}

fn all_triggers() -> Vec<ComponentTrigger> {
    vec![
        Initialize,
        Start,
        StartCompleted,
        Stop,
        StopCompleted,
        Resume,
        ResumeCompleted,
        Reset,
        ResetCompleted,
        Dispose,
        DisposeCompleted,
        Degrade,
        DegradeCompleted,
        Fault,
        FaultCompleted,
    ]
}

/// The legal entries of the table, written out independently:
/// `(from, trigger, to)`.
fn legal_entries() -> Vec<(ComponentState, ComponentTrigger, ComponentState)> {
    vec![
        (PreInitialized, Initialize, PostInitialized),
        (PostInitialized, Start, Starting),
        (Stopped, Start, Starting),
        (Starting, StartCompleted, Running),
        (Running, Stop, Stopping),
        (Degraded, Stop, Stopping),
        (Stopping, StopCompleted, Stopped),
        (Stopped, Resume, Resuming),
        (Resuming, ResumeCompleted, Running),
        (Stopped, Reset, Resetting),
        (PostInitialized, Reset, Resetting),
        (Resetting, ResetCompleted, PostInitialized),
        (Stopped, Dispose, Disposing),
        (PostInitialized, Dispose, Disposing),
        (Disposing, DisposeCompleted, Disposed),
        (Running, Degrade, Degrading),
        (Degrading, DegradeCompleted, Degraded),
        (PostInitialized, Fault, Faulting),
        (Starting, Fault, Faulting),
        (Running, Fault, Faulting),
        (Stopping, Fault, Faulting),
        (Stopped, Fault, Faulting),
        (Resuming, Fault, Faulting),
        (Resetting, Fault, Faulting),
        (Disposing, Fault, Faulting),
        (Degrading, Fault, Faulting),
        (Degraded, Fault, Faulting),
        (Faulting, FaultCompleted, Faulted),
    ]
}

/// Every one of the 14 x 15 = 210 pairs either reaches exactly the
/// table-specified destination or is explicitly rejected: no third
/// outcome, no pair left unspecified.
#[test]
fn all_210_pairs_match_the_table() {
    let entries = legal_entries();
    let mut checked = 0;
    let mut accepted = 0;
    for &s in all_states().iter() {
        for &t in all_triggers().iter() {
            let expected = entries
                .iter()
                .find(|&&(from, tr, _)| from == s && tr == t)
                .map(|&(_, _, to)| to);
            match (transition(s, t), expected) {
                (Ok(d), Some(to)) => {
                    assert_eq!(d, to);
                    accepted += 1;
                }
                (Err(e), None) => {
                    assert_eq!(e, InvalidTransition { from: s, trigger: t });
                }
                (got, want) => {
                    panic!("pair ({s:?}, {t:?}): got {got:?}, expected {want:?}");
                }
            }
            assert_eq!(transition_of_exec(s, t), expected);
            checked += 1;
        }
    }
    assert_eq!(checked, 210);
    assert_eq!(accepted, entries.len());
    assert_eq!(accepted, 28);
}

/// No skipped phases, over the whole table: the only entries into
/// `Running` come from `Starting` or `Resuming`, the only entry into
/// `Stopped` comes from `Stopping`, and `Resuming` is entered from
/// `Stopped` alone — so `Running` cannot be reached without `Starting`
/// having been passed, nor `Stopped` without `Stopping`.
#[test]
fn no_skipped_phases_in_the_table() {
    for &s in all_states().iter() {
        for &t in all_triggers().iter() {
            match transition(s, t) {
                Ok(Running) => assert!(s == Starting || s == Resuming),
                Ok(Stopped) => assert_eq!(s, Stopping),
                Ok(Resuming) => assert_eq!(s, Stopped),
                _ => {}
            }
        }
    }
}

/// Applying the same illegal trigger twice from the same state yields two
/// identical errors and leaves the state unchanged both times.
#[test]
fn rejection_is_idempotent() {
    let mut hooks = TestHooks::default();
    let mut sink = Recorder::default();
    let mut c = LifecycleController::new("comp-001".to_string());
    assert_eq!(c.state(), PreInitialized);

    let e1 = c.trigger(&mut hooks, &mut sink, Stop, 1).unwrap_err();
    assert_eq!(c.state(), PreInitialized);
    let e2 = c.trigger(&mut hooks, &mut sink, Stop, 2).unwrap_err();
    assert_eq!(c.state(), PreInitialized);
    assert_eq!(e1, e2);
    assert_eq!(
        e1,
        LifecycleError::Rejected(InvalidTransition {
            from: PreInitialized,
            trigger: Stop,
        })
    );
    assert_eq!(sink.warnings.len(), 2);
    assert_eq!(sink.changes.len(), 0);

    let rejection = InvalidTransition {
        from: PreInitialized,
        trigger: Stop,
    };
    assert_eq!(
        rejection.describe(),
        "cannot apply trigger STOP while in state PRE_INITIALIZED"
    );
}

/// From any active state, `Fault` followed by `FaultCompleted` always
/// reaches `Faulted`.
#[test]
fn fault_absorbs_every_active_state() {
    let active = vec![
        PostInitialized,
        Starting,
        Running,
        Stopping,
        Stopped,
        Resuming,
        Resetting,
        Disposing,
        Degrading,
        Degraded,
    ];
    for &s in active.iter() {
        assert_eq!(transition(s, Fault), Ok(Faulting));
        assert_eq!(transition(Faulting, FaultCompleted), Ok(Faulted));
    }
    for &s in [PreInitialized, Disposed, Faulting, Faulted].iter() {
        assert!(transition(s, Fault).is_err());
    }
}

#[derive(Default)]
struct TestHooks {
    fail_start: bool,
    fail_fault: bool,
    started: u32,
    stopped: u32,
    faulted: u32,
}

impl LifecycleHooks for TestHooks {
    fn on_start(&mut self) -> Result<(), String> {
        self.started += 1;
        if self.fail_start {
            Err("start hook failed".to_string())
        } else {
            Ok(())
        }
    }

    fn on_stop(&mut self) -> Result<(), String> {
        self.stopped += 1;
        Ok(())
    }

    fn on_fault(&mut self) -> Result<(), String> {
        self.faulted += 1;
        if self.fail_fault {
            Err("fault hook failed".to_string())
        } else {
            Ok(())
        }
    }
}

#[derive(Default)]
struct Recorder {
    changes: Vec<(String, ComponentState, ComponentState, ComponentTrigger, u64)>,
    warnings: Vec<(String, ComponentState, ComponentTrigger, u64)>,
}

impl LogSink for Recorder {
    fn record_state_change(
        &mut self,
        component_id: &str,
        old_state: ComponentState,
        new_state: ComponentState,
        t: ComponentTrigger,
        ts_ns: u64,
    ) {
        self.changes
            .push((component_id.to_string(), old_state, new_state, t, ts_ns));
    }

    fn record_warning(
        &mut self,
        component_id: &str,
        state: ComponentState,
        rejected: ComponentTrigger,
        ts_ns: u64,
    ) {
        self.warnings
            .push((component_id.to_string(), state, rejected, ts_ns));
    }
}

/// A component in `PostInitialized` receiving `Start` enters `Starting`;
/// the hook succeeds; `StartCompleted` reaches `Running`. `Dispose` while
/// `Running` is rejected with the exact context and the state stays
/// `Running`.
#[test]
fn start_then_illegal_dispose() {
    let mut hooks = TestHooks::default();
    let mut sink = Recorder::default();
    let mut c = LifecycleController::new("strategy-7".to_string());

    assert_eq!(c.trigger(&mut hooks, &mut sink, Initialize, 10), Ok(PostInitialized));
    assert_eq!(c.trigger(&mut hooks, &mut sink, Start, 11), Ok(Starting));
    assert_eq!(hooks.started, 1);
    assert_eq!(c.trigger(&mut hooks, &mut sink, StartCompleted, 12), Ok(Running));
    assert_eq!(c.state(), Running);

    let err = c.trigger(&mut hooks, &mut sink, Dispose, 13).unwrap_err();
    assert_eq!(
        err,
        LifecycleError::Rejected(InvalidTransition {
            from: Running,
            trigger: Dispose,
        })
    );
    assert_eq!(c.state(), Running);

    assert_eq!(
        sink.changes,
        vec![
            ("strategy-7".to_string(), PreInitialized, PostInitialized, Initialize, 10),
            ("strategy-7".to_string(), PostInitialized, Starting, Start, 11),
            ("strategy-7".to_string(), Starting, Running, StartCompleted, 12),
        ]
    );
    assert_eq!(
        sink.warnings,
        vec![("strategy-7".to_string(), Running, Dispose, 13)]
    );
}

/// A component whose start hook fails is auto-faulted: the controller
/// applies `Fault` and `FaultCompleted` itself, the final observable
/// state is `Faulted`, and the returned error wraps the original hook
/// failure.
#[test]
fn failed_start_hook_faults_the_component() {
    let mut hooks = TestHooks {
        fail_start: true,
        ..TestHooks::default()
    };
    let mut sink = Recorder::default();
    let mut c = LifecycleController::new("data-client".to_string());

    assert_eq!(c.trigger(&mut hooks, &mut sink, Initialize, 20), Ok(PostInitialized));
    let err = c.trigger(&mut hooks, &mut sink, Start, 21).unwrap_err();
    match err {
        LifecycleError::HookFailed(h) => {
            assert_eq!(h.from, PostInitialized);
            assert_eq!(h.attempted, Starting);
            assert_eq!(h.message, "start hook failed");
        }
        other => panic!("expected a wrapped hook failure, got {other:?}"),
    }
    assert_eq!(c.state(), Faulted);
    assert_eq!(hooks.started, 1);
    assert_eq!(hooks.faulted, 1);

    assert_eq!(
        sink.changes,
        vec![
            ("data-client".to_string(), PreInitialized, PostInitialized, Initialize, 20),
            ("data-client".to_string(), PostInitialized, Faulting, Fault, 21),
            ("data-client".to_string(), Faulting, Faulted, FaultCompleted, 21),
        ]
    );
}

/// A fault hook that itself fails cannot leave the component mid-fault:
/// the escalation still ends in `Faulted`.
#[test]
fn failed_fault_hook_still_reaches_faulted() {
    let mut hooks = TestHooks {
        fail_fault: true,
        ..TestHooks::default()
    };
    let mut sink = Recorder::default();
    let mut c = LifecycleController::new("risk-engine".to_string());

    assert_eq!(c.trigger(&mut hooks, &mut sink, Initialize, 30), Ok(PostInitialized));
    let err = c.trigger(&mut hooks, &mut sink, Fault, 31).unwrap_err();
    match err {
        LifecycleError::HookFailed(h) => {
            assert_eq!(h.from, PostInitialized);
            assert_eq!(h.attempted, Faulting);
            assert_eq!(h.message, "fault hook failed");
        }
        other => panic!("expected a wrapped hook failure, got {other:?}"),
    }
    assert_eq!(c.state(), Faulted);
    // The failing fault hook ran once; the escalation did not re-enter it.
    assert_eq!(hooks.faulted, 1);
}

/// N callers issuing the same valid trigger against one instance are
/// serialized: exactly one transition is accepted and the other N - 1 are
/// rejected, because after the first commit the state no longer matches
/// the trigger's precondition.
#[test]
fn one_commit_per_trigger_event() {
    let mut hooks = TestHooks::default();
    let mut sink = Recorder::default();
    let mut c = LifecycleController::new("exec-client".to_string());

    assert_eq!(c.trigger(&mut hooks, &mut sink, Initialize, 40), Ok(PostInitialized));

    let n = 5;
    let mut ok = 0;
    let mut rejected = 0;
    for i in 0..n {
        match c.trigger(&mut hooks, &mut sink, Start, 41 + i) {
            Ok(s) => {
                assert_eq!(s, Starting);
                ok += 1;
            }
            Err(LifecycleError::Rejected(e)) => {
                assert_eq!(e, InvalidTransition { from: Starting, trigger: Start });
                rejected += 1;
            }
            Err(other) => panic!("unexpected error {other:?}"),
        }
    }
    assert_eq!(ok, 1);
    assert_eq!(rejected, n - 1);
    assert_eq!(c.state(), Starting);
}

/// A full healthy pass through the lifecycle, exercising every
/// non-faulting phase of the table.
#[test]
fn full_lifecycle_walk() {
    let mut hooks = TestHooks::default();
    let mut sink = Recorder::default();
    let mut c = LifecycleController::new("actor".to_string());

    let steps = vec![
        (Initialize, PostInitialized),
        (Start, Starting),
        (StartCompleted, Running),
        (Degrade, Degrading),
        (DegradeCompleted, Degraded),
        (Stop, Stopping),
        (StopCompleted, Stopped),
        (Resume, Resuming),
        (ResumeCompleted, Running),
        (Stop, Stopping),
        (StopCompleted, Stopped),
        (Reset, Resetting),
        (ResetCompleted, PostInitialized),
        (Dispose, Disposing),
        (DisposeCompleted, Disposed),
    ];
    let mut ts = 0;
    for (t, want) in steps {
        ts += 1;
        assert_eq!(c.trigger(&mut hooks, &mut sink, t, ts), Ok(want));
        assert_eq!(c.state(), want);
    }
    assert_eq!(sink.changes.len(), 15);
    assert_eq!(sink.warnings.len(), 0);
    assert_eq!(hooks.started, 1);
    assert_eq!(hooks.stopped, 2);
    assert_eq!(hooks.faulted, 0);
}

//! The state and trigger vocabulary of the component lifecycle.
//!
//! Both sets are closed: each value has a stable integer value and a
//! canonical uppercase-with-underscores string form, parsed
//! case-insensitively. Parsing an unrecognized string is a hard error,
//! never a silent default.

use vstd::prelude::*;

use crate::casefold::eq_ignore_ascii_case;
use crate::casefold::fold_eq;
use crate::errors::UnknownValue;

verus! {

/// The closed set of points a managed component can occupy.
///
/// Exactly one state is current at any instant for a given component
/// instance. In-progress states (`Starting`, `Stopping`, ...) are entered
/// by an intent trigger and left by the matching completion trigger, so
/// observers can distinguish "requested" from "achieved".
#[derive(Copy, Clone, Debug, Hash, PartialEq, Eq, Structural)]
pub enum ComponentState {
    PreInitialized,
    PostInitialized,
    Starting,
    Running,
    Stopping,
    Stopped,
    Resuming,
    Resetting,
    Disposing,
    Disposed,
    Degrading,
    Degraded,
    Faulting,
    Faulted,
}

impl ComponentState {
    /// The stable integer value of this ComponentState.
    pub open spec fn value_spec(self) -> u8 {
        match self {
            ComponentState::PreInitialized => 0,
            ComponentState::PostInitialized => 1,
            ComponentState::Starting => 2,
            ComponentState::Running => 3,
            ComponentState::Stopping => 4,
            ComponentState::Stopped => 5,
            ComponentState::Resuming => 6,
            ComponentState::Resetting => 7,
            ComponentState::Disposing => 8,
            ComponentState::Disposed => 9,
            ComponentState::Degrading => 10,
            ComponentState::Degraded => 11,
            ComponentState::Faulting => 12,
            ComponentState::Faulted => 13,
        }
    }

    /// The ComponentState value with integer value `v`, if there is one.
    pub open spec fn from_value_spec(v: u8) -> Option<ComponentState> {
        if v == 0 {
            Some(ComponentState::PreInitialized)
        } else if v == 1 {
            Some(ComponentState::PostInitialized)
        } else if v == 2 {
            Some(ComponentState::Starting)
        } else if v == 3 {
            Some(ComponentState::Running)
        } else if v == 4 {
            Some(ComponentState::Stopping)
        } else if v == 5 {
            Some(ComponentState::Stopped)
        } else if v == 6 {
            Some(ComponentState::Resuming)
        } else if v == 7 {
            Some(ComponentState::Resetting)
        } else if v == 8 {
            Some(ComponentState::Disposing)
        } else if v == 9 {
            Some(ComponentState::Disposed)
        } else if v == 10 {
            Some(ComponentState::Degrading)
        } else if v == 11 {
            Some(ComponentState::Degraded)
        } else if v == 12 {
            Some(ComponentState::Faulting)
        } else if v == 13 {
            Some(ComponentState::Faulted)
        } else {
            None
        }
    }

    /// The canonical string form, uppercase with underscores.
    pub open spec fn name_spec(self) -> Seq<char> {
        match self {
            ComponentState::PreInitialized => "PRE_INITIALIZED"@,
            ComponentState::PostInitialized => "POST_INITIALIZED"@,
            ComponentState::Starting => "STARTING"@,
            ComponentState::Running => "RUNNING"@,
            ComponentState::Stopping => "STOPPING"@,
            ComponentState::Stopped => "STOPPED"@,
            ComponentState::Resuming => "RESUMING"@,
            ComponentState::Resetting => "RESETTING"@,
            ComponentState::Disposing => "DISPOSING"@,
            ComponentState::Disposed => "DISPOSED"@,
            ComponentState::Degrading => "DEGRADING"@,
            ComponentState::Degraded => "DEGRADED"@,
            ComponentState::Faulting => "FAULTING"@,
            ComponentState::Faulted => "FAULTED"@,
        }
    }

    /// Which value the character sequence `s` names, compared
    /// case-insensitively against each accepted string form.
    pub open spec fn parse_spec(s: Seq<char>) -> Option<ComponentState> {
        if fold_eq(s, "PRE_INITIALIZED"@) {
            Some(ComponentState::PreInitialized)
        } else if fold_eq(s, "POST_INITIALIZED"@) {
            Some(ComponentState::PostInitialized)
        } else if fold_eq(s, "STARTING"@) {
            Some(ComponentState::Starting)
        } else if fold_eq(s, "RUNNING"@) {
            Some(ComponentState::Running)
        } else if fold_eq(s, "STOPPING"@) {
            Some(ComponentState::Stopping)
        } else if fold_eq(s, "STOPPED"@) {
            Some(ComponentState::Stopped)
        } else if fold_eq(s, "RESUMING"@) {
            Some(ComponentState::Resuming)
        } else if fold_eq(s, "RESETTING"@) {
            Some(ComponentState::Resetting)
        } else if fold_eq(s, "DISPOSING"@) {
            Some(ComponentState::Disposing)
        } else if fold_eq(s, "DISPOSED"@) {
            Some(ComponentState::Disposed)
        } else if fold_eq(s, "DEGRADING"@) {
            Some(ComponentState::Degrading)
        } else if fold_eq(s, "DEGRADED"@) {
            Some(ComponentState::Degraded)
        } else if fold_eq(s, "FAULTING"@) {
            Some(ComponentState::Faulting)
        } else if fold_eq(s, "FAULTED"@) {
            Some(ComponentState::Faulted)
        } else {
            None
        }
    }

    /// Returns the stable integer value.
    pub fn value(self) -> (v: u8)
        ensures
            v == self.value_spec(),
    {
        match self {
            ComponentState::PreInitialized => 0,
            ComponentState::PostInitialized => 1,
            ComponentState::Starting => 2,
            ComponentState::Running => 3,
            ComponentState::Stopping => 4,
            ComponentState::Stopped => 5,
            ComponentState::Resuming => 6,
            ComponentState::Resetting => 7,
            ComponentState::Disposing => 8,
            ComponentState::Disposed => 9,
            ComponentState::Degrading => 10,
            ComponentState::Degraded => 11,
            ComponentState::Faulting => 12,
            ComponentState::Faulted => 13,
        }
    }

    /// Returns the value with integer value `v`, or `None` when `v`
    /// is not the value of any ComponentState.
    pub fn from_value(v: u8) -> (r: Option<ComponentState>)
        ensures
            r == Self::from_value_spec(v),
    {
        if v == 0 {
            Some(ComponentState::PreInitialized)
        } else if v == 1 {
            Some(ComponentState::PostInitialized)
        } else if v == 2 {
            Some(ComponentState::Starting)
        } else if v == 3 {
            Some(ComponentState::Running)
        } else if v == 4 {
            Some(ComponentState::Stopping)
        } else if v == 5 {
            Some(ComponentState::Stopped)
        } else if v == 6 {
            Some(ComponentState::Resuming)
        } else if v == 7 {
            Some(ComponentState::Resetting)
        } else if v == 8 {
            Some(ComponentState::Disposing)
        } else if v == 9 {
            Some(ComponentState::Disposed)
        } else if v == 10 {
            Some(ComponentState::Degrading)
        } else if v == 11 {
            Some(ComponentState::Degraded)
        } else if v == 12 {
            Some(ComponentState::Faulting)
        } else if v == 13 {
            Some(ComponentState::Faulted)
        } else {
            None
        }
    }

    /// Returns the canonical string form.
    pub fn as_str(self) -> (r: &'static str)
        ensures
            r@ == self.name_spec(),
    {
        match self {
            ComponentState::PreInitialized => "PRE_INITIALIZED",
            ComponentState::PostInitialized => "POST_INITIALIZED",
            ComponentState::Starting => "STARTING",
            ComponentState::Running => "RUNNING",
            ComponentState::Stopping => "STOPPING",
            ComponentState::Stopped => "STOPPED",
            ComponentState::Resuming => "RESUMING",
            ComponentState::Resetting => "RESETTING",
            ComponentState::Disposing => "DISPOSING",
            ComponentState::Disposed => "DISPOSED",
            ComponentState::Degrading => "DEGRADING",
            ComponentState::Degraded => "DEGRADED",
            ComponentState::Faulting => "FAULTING",
            ComponentState::Faulted => "FAULTED",
        }
    }

    /// Parses a string form, case-insensitively. An unrecognized
    /// string is rejected outright, never coerced to a default value.
    pub fn from_str(s: &str) -> (r: Result<ComponentState, UnknownValue>)
        ensures
            match r {
                Ok(v) => Self::parse_spec(s@) == Some(v),
                Err(e) => Self::parse_spec(s@) is None && e.value@ == s@,
            },
    {
        if eq_ignore_ascii_case(s, "PRE_INITIALIZED") {
            Ok(ComponentState::PreInitialized)
        } else if eq_ignore_ascii_case(s, "POST_INITIALIZED") {
            Ok(ComponentState::PostInitialized)
        } else if eq_ignore_ascii_case(s, "STARTING") {
            Ok(ComponentState::Starting)
        } else if eq_ignore_ascii_case(s, "RUNNING") {
            Ok(ComponentState::Running)
        } else if eq_ignore_ascii_case(s, "STOPPING") {
            Ok(ComponentState::Stopping)
        } else if eq_ignore_ascii_case(s, "STOPPED") {
            Ok(ComponentState::Stopped)
        } else if eq_ignore_ascii_case(s, "RESUMING") {
            Ok(ComponentState::Resuming)
        } else if eq_ignore_ascii_case(s, "RESETTING") {
            Ok(ComponentState::Resetting)
        } else if eq_ignore_ascii_case(s, "DISPOSING") {
            Ok(ComponentState::Disposing)
        } else if eq_ignore_ascii_case(s, "DISPOSED") {
            Ok(ComponentState::Disposed)
        } else if eq_ignore_ascii_case(s, "DEGRADING") {
            Ok(ComponentState::Degrading)
        } else if eq_ignore_ascii_case(s, "DEGRADED") {
            Ok(ComponentState::Degraded)
        } else if eq_ignore_ascii_case(s, "FAULTING") {
            Ok(ComponentState::Faulting)
        } else if eq_ignore_ascii_case(s, "FAULTED") {
            Ok(ComponentState::Faulted)
        } else {
            Err(UnknownValue::new(s))
        }
    }
}

/// The closed set of events that request a state transition.
///
/// Intents (`Start`, `Stop`, ...) are issued by a controlling actor;
/// completions (`StartCompleted`, ...) are issued by the component itself
/// once its hook finishes, acknowledging that the intent succeeded.
#[derive(Copy, Clone, Debug, Hash, PartialEq, Eq, Structural)]
pub enum ComponentTrigger {
    Initialize,
    Start,
    StartCompleted,
    Stop,
    StopCompleted,
    Resume,
    ResumeCompleted,
    Reset,
    ResetCompleted,
    Dispose,
    DisposeCompleted,
    Degrade,
    DegradeCompleted,
    Fault,
    FaultCompleted,
}

impl ComponentTrigger {
    /// The stable integer value of this ComponentTrigger.
    pub open spec fn value_spec(self) -> u8 {
        match self {
            ComponentTrigger::Initialize => 1,
            ComponentTrigger::Start => 2,
            ComponentTrigger::StartCompleted => 3,
            ComponentTrigger::Stop => 4,
            ComponentTrigger::StopCompleted => 5,
            ComponentTrigger::Resume => 6,
            ComponentTrigger::ResumeCompleted => 7,
            ComponentTrigger::Reset => 8,
            ComponentTrigger::ResetCompleted => 9,
            ComponentTrigger::Dispose => 10,
            ComponentTrigger::DisposeCompleted => 11,
            ComponentTrigger::Degrade => 12,
            ComponentTrigger::DegradeCompleted => 13,
            ComponentTrigger::Fault => 14,
            ComponentTrigger::FaultCompleted => 15,
        }
    }

    /// The ComponentTrigger value with integer value `v`, if there is one.
    pub open spec fn from_value_spec(v: u8) -> Option<ComponentTrigger> {
        if v == 1 {
            Some(ComponentTrigger::Initialize)
        } else if v == 2 {
            Some(ComponentTrigger::Start)
        } else if v == 3 {
            Some(ComponentTrigger::StartCompleted)
        } else if v == 4 {
            Some(ComponentTrigger::Stop)
        } else if v == 5 {
            Some(ComponentTrigger::StopCompleted)
        } else if v == 6 {
            Some(ComponentTrigger::Resume)
        } else if v == 7 {
            Some(ComponentTrigger::ResumeCompleted)
        } else if v == 8 {
            Some(ComponentTrigger::Reset)
        } else if v == 9 {
            Some(ComponentTrigger::ResetCompleted)
        } else if v == 10 {
            Some(ComponentTrigger::Dispose)
        } else if v == 11 {
            Some(ComponentTrigger::DisposeCompleted)
        } else if v == 12 {
            Some(ComponentTrigger::Degrade)
        } else if v == 13 {
            Some(ComponentTrigger::DegradeCompleted)
        } else if v == 14 {
            Some(ComponentTrigger::Fault)
        } else if v == 15 {
            Some(ComponentTrigger::FaultCompleted)
        } else {
            None
        }
    }

    /// The canonical string form, uppercase with underscores.
    pub open spec fn name_spec(self) -> Seq<char> {
        match self {
            ComponentTrigger::Initialize => "INITIALIZE"@,
            ComponentTrigger::Start => "START"@,
            ComponentTrigger::StartCompleted => "START_COMPLETED"@,
            ComponentTrigger::Stop => "STOP"@,
            ComponentTrigger::StopCompleted => "STOP_COMPLETED"@,
            ComponentTrigger::Resume => "RESUME"@,
            ComponentTrigger::ResumeCompleted => "RESUME_COMPLETED"@,
            ComponentTrigger::Reset => "RESET"@,
            ComponentTrigger::ResetCompleted => "RESET_COMPLETED"@,
            ComponentTrigger::Dispose => "DISPOSE"@,
            ComponentTrigger::DisposeCompleted => "DISPOSE_COMPLETED"@,
            ComponentTrigger::Degrade => "DEGRADE"@,
            ComponentTrigger::DegradeCompleted => "DEGRADE_COMPLETED"@,
            ComponentTrigger::Fault => "FAULT"@,
            ComponentTrigger::FaultCompleted => "FAULT_COMPLETED"@,
        }
    }

    /// Which value the character sequence `s` names, compared
    /// case-insensitively against each accepted string form.
    pub open spec fn parse_spec(s: Seq<char>) -> Option<ComponentTrigger> {
        if fold_eq(s, "INITIALIZE"@) {
            Some(ComponentTrigger::Initialize)
        } else if fold_eq(s, "START"@) {
            Some(ComponentTrigger::Start)
        } else if fold_eq(s, "START_COMPLETED"@) {
            Some(ComponentTrigger::StartCompleted)
        } else if fold_eq(s, "STOP"@) {
            Some(ComponentTrigger::Stop)
        } else if fold_eq(s, "STOP_COMPLETED"@) {
            Some(ComponentTrigger::StopCompleted)
        } else if fold_eq(s, "RESUME"@) {
            Some(ComponentTrigger::Resume)
        } else if fold_eq(s, "RESUME_COMPLETED"@) {
            Some(ComponentTrigger::ResumeCompleted)
        } else if fold_eq(s, "RESET"@) {
            Some(ComponentTrigger::Reset)
        } else if fold_eq(s, "RESET_COMPLETED"@) {
            Some(ComponentTrigger::ResetCompleted)
        } else if fold_eq(s, "DISPOSE"@) {
            Some(ComponentTrigger::Dispose)
        } else if fold_eq(s, "DISPOSE_COMPLETED"@) {
            Some(ComponentTrigger::DisposeCompleted)
        } else if fold_eq(s, "DEGRADE"@) {
            Some(ComponentTrigger::Degrade)
        } else if fold_eq(s, "DEGRADE_COMPLETED"@) {
            Some(ComponentTrigger::DegradeCompleted)
        } else if fold_eq(s, "FAULT"@) {
            Some(ComponentTrigger::Fault)
        } else if fold_eq(s, "FAULT_COMPLETED"@) {
            Some(ComponentTrigger::FaultCompleted)
        } else {
            None
        }
    }

    /// Returns the stable integer value.
    pub fn value(self) -> (v: u8)
        ensures
            v == self.value_spec(),
    {
        match self {
            ComponentTrigger::Initialize => 1,
            ComponentTrigger::Start => 2,
            ComponentTrigger::StartCompleted => 3,
            ComponentTrigger::Stop => 4,
            ComponentTrigger::StopCompleted => 5,
            ComponentTrigger::Resume => 6,
            ComponentTrigger::ResumeCompleted => 7,
            ComponentTrigger::Reset => 8,
            ComponentTrigger::ResetCompleted => 9,
            ComponentTrigger::Dispose => 10,
            ComponentTrigger::DisposeCompleted => 11,
            ComponentTrigger::Degrade => 12,
            ComponentTrigger::DegradeCompleted => 13,
            ComponentTrigger::Fault => 14,
            ComponentTrigger::FaultCompleted => 15,
        }
    }

    /// Returns the value with integer value `v`, or `None` when `v`
    /// is not the value of any ComponentTrigger.
    pub fn from_value(v: u8) -> (r: Option<ComponentTrigger>)
        ensures
            r == Self::from_value_spec(v),
    {
        if v == 1 {
            Some(ComponentTrigger::Initialize)
        } else if v == 2 {
            Some(ComponentTrigger::Start)
        } else if v == 3 {
            Some(ComponentTrigger::StartCompleted)
        } else if v == 4 {
            Some(ComponentTrigger::Stop)
        } else if v == 5 {
            Some(ComponentTrigger::StopCompleted)
        } else if v == 6 {
            Some(ComponentTrigger::Resume)
        } else if v == 7 {
            Some(ComponentTrigger::ResumeCompleted)
        } else if v == 8 {
            Some(ComponentTrigger::Reset)
        } else if v == 9 {
            Some(ComponentTrigger::ResetCompleted)
        } else if v == 10 {
            Some(ComponentTrigger::Dispose)
        } else if v == 11 {
            Some(ComponentTrigger::DisposeCompleted)
        } else if v == 12 {
            Some(ComponentTrigger::Degrade)
        } else if v == 13 {
            Some(ComponentTrigger::DegradeCompleted)
        } else if v == 14 {
            Some(ComponentTrigger::Fault)
        } else if v == 15 {
            Some(ComponentTrigger::FaultCompleted)
        } else {
            None
        }
    }

    /// Returns the canonical string form.
    pub fn as_str(self) -> (r: &'static str)
        ensures
            r@ == self.name_spec(),
    {
        match self {
            ComponentTrigger::Initialize => "INITIALIZE",
            ComponentTrigger::Start => "START",
            ComponentTrigger::StartCompleted => "START_COMPLETED",
            ComponentTrigger::Stop => "STOP",
            ComponentTrigger::StopCompleted => "STOP_COMPLETED",
            ComponentTrigger::Resume => "RESUME",
            ComponentTrigger::ResumeCompleted => "RESUME_COMPLETED",
            ComponentTrigger::Reset => "RESET",
            ComponentTrigger::ResetCompleted => "RESET_COMPLETED",
            ComponentTrigger::Dispose => "DISPOSE",
            ComponentTrigger::DisposeCompleted => "DISPOSE_COMPLETED",
            ComponentTrigger::Degrade => "DEGRADE",
            ComponentTrigger::DegradeCompleted => "DEGRADE_COMPLETED",
            ComponentTrigger::Fault => "FAULT",
            ComponentTrigger::FaultCompleted => "FAULT_COMPLETED",
        }
    }

    /// Parses a string form, case-insensitively. An unrecognized
    /// string is rejected outright, never coerced to a default value.
    pub fn from_str(s: &str) -> (r: Result<ComponentTrigger, UnknownValue>)
        ensures
            match r {
                Ok(v) => Self::parse_spec(s@) == Some(v),
                Err(e) => Self::parse_spec(s@) is None && e.value@ == s@,
            },
    {
        if eq_ignore_ascii_case(s, "INITIALIZE") {
            Ok(ComponentTrigger::Initialize)
        } else if eq_ignore_ascii_case(s, "START") {
            Ok(ComponentTrigger::Start)
        } else if eq_ignore_ascii_case(s, "START_COMPLETED") {
            Ok(ComponentTrigger::StartCompleted)
        } else if eq_ignore_ascii_case(s, "STOP") {
            Ok(ComponentTrigger::Stop)
        } else if eq_ignore_ascii_case(s, "STOP_COMPLETED") {
            Ok(ComponentTrigger::StopCompleted)
        } else if eq_ignore_ascii_case(s, "RESUME") {
            Ok(ComponentTrigger::Resume)
        } else if eq_ignore_ascii_case(s, "RESUME_COMPLETED") {
            Ok(ComponentTrigger::ResumeCompleted)
        } else if eq_ignore_ascii_case(s, "RESET") {
            Ok(ComponentTrigger::Reset)
        } else if eq_ignore_ascii_case(s, "RESET_COMPLETED") {
            Ok(ComponentTrigger::ResetCompleted)
        } else if eq_ignore_ascii_case(s, "DISPOSE") {
            Ok(ComponentTrigger::Dispose)
        } else if eq_ignore_ascii_case(s, "DISPOSE_COMPLETED") {
            Ok(ComponentTrigger::DisposeCompleted)
        } else if eq_ignore_ascii_case(s, "DEGRADE") {
            Ok(ComponentTrigger::Degrade)
        } else if eq_ignore_ascii_case(s, "DEGRADE_COMPLETED") {
            Ok(ComponentTrigger::DegradeCompleted)
        } else if eq_ignore_ascii_case(s, "FAULT") {
            Ok(ComponentTrigger::Fault)
        } else if eq_ignore_ascii_case(s, "FAULT_COMPLETED") {
            Ok(ComponentTrigger::FaultCompleted)
        } else {
            Err(UnknownValue::new(s))
        }
    }
}
} // verus!

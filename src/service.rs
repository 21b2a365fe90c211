use vstd::prelude::*;

verus! {

/// Seconds between two routine checks of the poll loop.
pub const POLL_INTERVAL_SECS: u64 = 60;

/// A power notification that the service receives.
#[derive(Debug, Clone, Copy, PartialEq, Eq, Structural)]
pub enum PowerEvent {
    ResumeAutomatic,
    ResumeSuspend,
    Other,
}

/// A control signal that the service framework hands to the service.
#[derive(Debug, Clone, Copy, PartialEq, Eq, Structural)]
pub enum ControlSignal {
    Stop,
    Interrogate,
    Power(PowerEvent),
    Other,
}

/// What the control handler answers to the service framework.
#[derive(Debug, Clone, Copy, PartialEq, Eq, Structural)]
pub enum ControlReply {
    NoError,
    NotImplemented,
}

/// What the control handler does with one signal.
#[derive(Debug, Clone, Copy, PartialEq, Eq, Structural)]
pub struct ControlDecision {
    pub reply: ControlReply,
    /// Clear the run flag, so that the poll loop ends after its current check.
    pub stop: bool,
    /// Start a background task that waits the post-wake delay and then runs a forced check.
    pub forced_check: bool,
}

/// The signal reports a resume from sleep.
pub open spec fn is_wake(signal: ControlSignal) -> bool {
    signal == ControlSignal::Power(PowerEvent::ResumeAutomatic) || signal == ControlSignal::Power(
        PowerEvent::ResumeSuspend,
    )
}

/// Decides how the service reacts to a control signal: stop and interrogate
/// end the run, a resume from sleep starts a forced check, other power
/// events are acknowledged, and anything else is not handled.
pub fn handle_control(signal: ControlSignal) -> (d: ControlDecision)
    ensures
        d.stop <==> (signal == ControlSignal::Stop || signal == ControlSignal::Interrogate),
        d.forced_check <==> is_wake(signal),
        d.reply == ControlReply::NotImplemented <==> signal == ControlSignal::Other,
{
    match signal {
        ControlSignal::Stop | ControlSignal::Interrogate => ControlDecision {
            reply: ControlReply::NoError,
            stop: true,
            forced_check: false,
        },
        ControlSignal::Power(event) => ControlDecision {
            reply: ControlReply::NoError,
            stop: false,
            forced_check: event == PowerEvent::ResumeAutomatic || event == PowerEvent::ResumeSuspend,
        },
        ControlSignal::Other => ControlDecision {
            reply: ControlReply::NotImplemented,
            stop: false,
            forced_check: false,
        },
    }
}

/// The life cycle of the service.
#[derive(Debug, Clone, Copy, PartialEq, Eq, Structural)]
pub enum ServicePhase {
    Starting,
    Running,
    Stopping,
    Stopped,
}

/// What the service host is to do next.
#[derive(Debug, Clone, Copy, PartialEq, Eq, Structural)]
pub enum ServiceAction {
    /// Register the control handler, report "running" and start a routine
    /// check at once in the background.
    Start,
    /// Sleep, then run a routine (not forced) check to its end.
    Poll { interval_secs: u64 },
    /// Report "stopped".
    ReportStopped,
    /// Nothing is left to do.
    Exit,
}

/// The phase that follows `phase` while the run flag reads `running`.
pub open spec fn spec_next_service_phase(phase: ServicePhase, running: bool) -> ServicePhase {
    match phase {
        ServicePhase::Starting => ServicePhase::Running,
        ServicePhase::Running => if running {
            ServicePhase::Running
        } else {
            ServicePhase::Stopping
        },
        ServicePhase::Stopping => ServicePhase::Stopped,
        ServicePhase::Stopped => ServicePhase::Stopped,
    }
}

/// The action of the step from `phase` while the run flag reads `running`.
pub open spec fn spec_service_action(phase: ServicePhase, running: bool) -> ServiceAction {
    match phase {
        ServicePhase::Starting => ServiceAction::Start,
        ServicePhase::Running => if running {
            ServiceAction::Poll { interval_secs: POLL_INTERVAL_SECS }
        } else {
            ServiceAction::ReportStopped
        },
        ServicePhase::Stopping => ServiceAction::Exit,
        ServicePhase::Stopped => ServiceAction::Exit,
    }
}

/// One step of the service life cycle: the next phase and what to do,
/// given the run flag as it reads now.
pub fn service_step(phase: ServicePhase, running: bool) -> (r: (ServicePhase, ServiceAction))
    ensures
        r.0 == spec_next_service_phase(phase, running),
        r.1 == spec_service_action(phase, running),
{
    match phase {
        ServicePhase::Starting => (
            ServicePhase::Running,
            ServiceAction::Start,
        ),
        ServicePhase::Running => {
            if running {
                (ServicePhase::Running, ServiceAction::Poll { interval_secs: POLL_INTERVAL_SECS })
            } else {
                (ServicePhase::Stopping, ServiceAction::ReportStopped)
            }
        },
        ServicePhase::Stopping => (ServicePhase::Stopped, ServiceAction::Exit),
        ServicePhase::Stopped => (ServicePhase::Stopped, ServiceAction::Exit),
    }
}

} // verus!

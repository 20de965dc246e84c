//! The supervisor: the monitoring / hibernation state machine.
//!
//! The supervisor decides; the surrounding binary acts.  Each call of
//! [`Supervisor::step`] consumes the outcome of the action performed last
//! (`Event`) and returns the next action to perform (`Action`).  The whole
//! behaviour of one loop cycle is fixed by [`spec_transition`], a pure
//! transition table, and `step` is proved to follow it exactly.
//!
//! One cycle runs: read the pause store; if paused, sleep one poll
//! interval and start over.  Otherwise probe the lighthouse; if reachable,
//! sleep one poll interval and start over.  On a failed probe, sleep the
//! grace period, re-read the pause store (a pause activated mid-grace wins
//! over the in-flight loss), re-probe, and only on a second failure invoke
//! the suspend.  After a suspend — successful or not — the wake-settle
//! wait runs before polling resumes; a failed suspend first costs a fixed
//! cooldown so a broken privileged command is not hammered.

use crate::config::PortalConfig;
use vstd::prelude::*;

verus! {

/// Seconds waited after a failed suspend invocation, before the
/// wake-settle wait, so that failures do not loop tightly.
pub const SUSPEND_FAILURE_COOLDOWN_SEC: u64 = 60;

/// The supervisor's publicly visible phase.  Held only in memory: a
/// restarted process always begins in `Idle`.
#[derive(Clone, Copy, Debug, PartialEq, Eq, Structural)]
pub enum MonitoringPhase {
    /// Lighthouse reachable (or not yet probed); normal polling.
    Idle,
    /// First probe failed; the debounce window is running.
    GraceWait,
    /// Loss confirmed; the suspend call and its aftermath.
    Suspending,
    /// An operator pause suppresses probing and suspending.
    PausedSkip,
}

/// What the supervisor asks the surrounding binary to do next.
#[derive(Clone, Copy, Debug, PartialEq, Eq, Structural)]
pub enum Action {
    /// Read the pause store; answer with `Event::PauseStatus`.
    ReadPause,
    /// Probe the lighthouse once; answer with `Event::ProbeResult`.
    Probe,
    /// Block for the given number of seconds; answer with `Event::SleepDone`.
    Sleep { seconds: u64 },
    /// Invoke the privileged suspend for the given number of seconds;
    /// answer with `Event::SuspendDone`.
    Suspend { seconds: u64 },
}

/// The outcome of the action performed last.
#[derive(Clone, Copy, Debug, PartialEq, Eq, Structural)]
pub enum Event {
    /// Whether the pause store reported an active, unexpired window.
    PauseStatus { active: bool },
    /// Whether the probe got a conclusive success response.
    ProbeResult { reachable: bool },
    /// The requested sleep has elapsed.
    SleepDone,
    /// Whether the privileged suspend reported success.
    SuspendDone { success: bool },
}

/// Where in the cycle the supervisor stands: which event it is waiting
/// for.  Always paired with the action that was handed out.
#[derive(Clone, Copy, Debug, PartialEq, Eq, Structural)]
pub enum Awaiting {
    /// The pause-store read that opens every cycle.
    PauseAtStart,
    /// The first probe of the cycle.
    FirstProbe,
    /// The grace-period sleep after a first failed probe.
    GraceSleep,
    /// The pause-store re-read between the two probes.
    PauseMidCycle,
    /// The confirming re-probe after the grace period.
    SecondProbe,
    /// The suspend invocation.
    SuspendOutcome,
    /// The fixed cooldown after a failed suspend.
    FailureCooldown,
    /// The post-wake settle wait.
    WakeSettle,
    /// The poll-interval sleep that ends an uneventful cycle.
    PollWait,
}

impl Awaiting {
    /// Which events may answer at this position.  The driver upholds this
    /// by construction: it answers exactly the action it was handed.
    pub open spec fn accepts(self, ev: Event) -> bool {
        match self {
            Awaiting::PauseAtStart | Awaiting::PauseMidCycle => ev is PauseStatus,
            Awaiting::FirstProbe | Awaiting::SecondProbe => ev is ProbeResult,
            Awaiting::GraceSleep | Awaiting::FailureCooldown | Awaiting::WakeSettle
                | Awaiting::PollWait => ev is SleepDone,
            Awaiting::SuspendOutcome => ev is SuspendDone,
        }
    }
}

/// The transition table: from the current phase, the position in the
/// cycle, and the event that answers it, to the new phase, the new
/// position, and the next action.
///
/// A cycle begins with the answer to the opening pause read and ends when
/// the position returns to `PauseAtStart`.  Three transitions end a cycle
/// without sleeping first — a pause discovered mid-grace, a recovery at
/// the second probe, and the completed wake-settle — so the next cycle's
/// pause read follows immediately, as the daemon loop does.
pub open spec fn spec_transition(
    cfg: PortalConfig,
    phase: MonitoringPhase,
    at: Awaiting,
    ev: Event,
) -> (MonitoringPhase, Awaiting, Action)
    recommends
        at.accepts(ev),
{
    match (at, ev) {
        (Awaiting::PauseAtStart, Event::PauseStatus { active }) => if active {
            (
                MonitoringPhase::PausedSkip,
                Awaiting::PollWait,
                Action::Sleep { seconds: cfg.scan_interval_sec },
            )
        } else {
            (phase, Awaiting::FirstProbe, Action::Probe)
        },
        (Awaiting::FirstProbe, Event::ProbeResult { reachable }) => if reachable {
            (
                MonitoringPhase::Idle,
                Awaiting::PollWait,
                Action::Sleep { seconds: cfg.scan_interval_sec },
            )
        } else {
            (
                MonitoringPhase::GraceWait,
                Awaiting::GraceSleep,
                Action::Sleep { seconds: cfg.grace_period_sec },
            )
        },
        (Awaiting::GraceSleep, Event::SleepDone) => (
            MonitoringPhase::GraceWait,
            Awaiting::PauseMidCycle,
            Action::ReadPause,
        ),
        (Awaiting::PauseMidCycle, Event::PauseStatus { active }) => if active {
            (MonitoringPhase::PausedSkip, Awaiting::PauseAtStart, Action::ReadPause)
        } else {
            (MonitoringPhase::GraceWait, Awaiting::SecondProbe, Action::Probe)
        },
        (Awaiting::SecondProbe, Event::ProbeResult { reachable }) => if reachable {
            (MonitoringPhase::Idle, Awaiting::PauseAtStart, Action::ReadPause)
        } else {
            (
                MonitoringPhase::Suspending,
                Awaiting::SuspendOutcome,
                Action::Suspend { seconds: cfg.spec_suspend_seconds() },
            )
        },
        (Awaiting::SuspendOutcome, Event::SuspendDone { success }) => if success {
            (
                MonitoringPhase::Suspending,
                Awaiting::WakeSettle,
                Action::Sleep { seconds: cfg.wakeup_wait_sec },
            )
        } else {
            (
                MonitoringPhase::Suspending,
                Awaiting::FailureCooldown,
                Action::Sleep { seconds: SUSPEND_FAILURE_COOLDOWN_SEC },
            )
        },
        (Awaiting::FailureCooldown, Event::SleepDone) => (
            MonitoringPhase::Suspending,
            Awaiting::WakeSettle,
            Action::Sleep { seconds: cfg.wakeup_wait_sec },
        ),
        (Awaiting::WakeSettle, Event::SleepDone) => (
            MonitoringPhase::Idle,
            Awaiting::PauseAtStart,
            Action::ReadPause,
        ),
        (Awaiting::PollWait, Event::SleepDone) => (phase, Awaiting::PauseAtStart, Action::ReadPause),
        // Unreachable under `accepts`; keep the machine where it is.
        _ => (phase, at, Action::ReadPause),
    }
}

/// The monitoring state machine.
pub struct Supervisor {
    pub config: PortalConfig,
    pub phase: MonitoringPhase,
    pub at: Awaiting,
}

impl Supervisor {
    pub open spec fn wf(self) -> bool {
        self.config.wf()
    }

    /// A fresh supervisor: in `Idle`, about to make its first pause read.
    pub fn new(config: PortalConfig) -> (s: Supervisor)
        requires
            config.wf(),
        ensures
            s.wf(),
            s.config == config,
            s.phase == MonitoringPhase::Idle,
            s.at == Awaiting::PauseAtStart,
    {
        Supervisor { config, phase: MonitoringPhase::Idle, at: Awaiting::PauseAtStart }
    }

    /// The action that opens the run: the first cycle's pause read.
    pub fn first_action(&self) -> (a: Action)
        ensures
            a == Action::ReadPause,
    {
        Action::ReadPause
    }

    /// Advances the machine by one transition: consumes the outcome of the
    /// action performed last and hands out the next action, exactly as
    /// [`spec_transition`] says.
    pub fn step(&mut self, ev: Event) -> (a: Action)
        requires
            old(self).wf(),
            old(self).at.accepts(ev),
        ensures
            final(self).wf(),
            final(self).config == old(self).config,
            (final(self).phase, final(self).at, a) == spec_transition(
                old(self).config,
                old(self).phase,
                old(self).at,
                ev,
            ),
    {
        match (self.at, ev) {
            (Awaiting::PauseAtStart, Event::PauseStatus { active }) => {
                if active {
                    self.phase = MonitoringPhase::PausedSkip;
                    self.at = Awaiting::PollWait;
                    Action::Sleep { seconds: self.config.scan_interval_sec }
                } else {
                    self.at = Awaiting::FirstProbe;
                    Action::Probe
                }
            }
            (Awaiting::FirstProbe, Event::ProbeResult { reachable }) => {
                if reachable {
                    self.phase = MonitoringPhase::Idle;
                    self.at = Awaiting::PollWait;
                    Action::Sleep { seconds: self.config.scan_interval_sec }
                } else {
                    self.phase = MonitoringPhase::GraceWait;
                    self.at = Awaiting::GraceSleep;
                    Action::Sleep { seconds: self.config.grace_period_sec }
                }
            }
            (Awaiting::GraceSleep, Event::SleepDone) => {
                self.phase = MonitoringPhase::GraceWait;
                self.at = Awaiting::PauseMidCycle;
                Action::ReadPause
            }
            (Awaiting::PauseMidCycle, Event::PauseStatus { active }) => {
                if active {
                    self.phase = MonitoringPhase::PausedSkip;
                    self.at = Awaiting::PauseAtStart;
                    Action::ReadPause
                } else {
                    self.phase = MonitoringPhase::GraceWait;
                    self.at = Awaiting::SecondProbe;
                    Action::Probe
                }
            }
            (Awaiting::SecondProbe, Event::ProbeResult { reachable }) => {
                if reachable {
                    self.phase = MonitoringPhase::Idle;
                    self.at = Awaiting::PauseAtStart;
                    Action::ReadPause
                } else {
                    self.phase = MonitoringPhase::Suspending;
                    self.at = Awaiting::SuspendOutcome;
                    Action::Suspend { seconds: self.config.suspend_seconds() }
                }
            }
            (Awaiting::SuspendOutcome, Event::SuspendDone { success }) => {
                if success {
                    self.phase = MonitoringPhase::Suspending;
                    self.at = Awaiting::WakeSettle;
                    Action::Sleep { seconds: self.config.wakeup_wait_sec }
                } else {
                    self.phase = MonitoringPhase::Suspending;
                    self.at = Awaiting::FailureCooldown;
                    Action::Sleep { seconds: SUSPEND_FAILURE_COOLDOWN_SEC }
                }
            }
            (Awaiting::FailureCooldown, Event::SleepDone) => {
                self.phase = MonitoringPhase::Suspending;
                self.at = Awaiting::WakeSettle;
                Action::Sleep { seconds: self.config.wakeup_wait_sec }
            }
            (Awaiting::WakeSettle, Event::SleepDone) => {
                self.phase = MonitoringPhase::Idle;
                self.at = Awaiting::PauseAtStart;
                Action::ReadPause
            }
            (Awaiting::PollWait, Event::SleepDone) => {
                self.at = Awaiting::PauseAtStart;
                Action::ReadPause
            }
            _ => Action::ReadPause,
        }
    }
}

} // verus!

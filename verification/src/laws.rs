//! Cycle-level laws of the supervisor.
//!
//! A run of the supervisor is a fold of [`spec_transition`] over the
//! events the driver answers with; `run_actions` collects the actions
//! such a run hands out and `state_after` gives where it ends.  The proof
//! functions here state the guarantees of whole cycles: a paused cycle
//! touches neither prober nor invoker, a transient loss never suspends,
//! and a confirmed loss suspends exactly once unless a pause intervened.

use crate::config::PortalConfig;
use crate::supervisor::{spec_transition, Action, Awaiting, Event, MonitoringPhase};
use vstd::prelude::*;

verus! {

/// The actions a run hands out, one per event consumed.
pub open spec fn run_actions(
    cfg: PortalConfig,
    phase: MonitoringPhase,
    at: Awaiting,
    events: Seq<Event>,
) -> Seq<Action>
    decreases events.len(),
{
    if events.len() == 0 {
        Seq::empty()
    } else {
        let step = spec_transition(cfg, phase, at, events.first());
        seq![step.2] + run_actions(cfg, step.0, step.1, events.drop_first())
    }
}

/// The phase and position a run ends in.
pub open spec fn state_after(
    cfg: PortalConfig,
    phase: MonitoringPhase,
    at: Awaiting,
    events: Seq<Event>,
) -> (MonitoringPhase, Awaiting)
    decreases events.len(),
{
    if events.len() == 0 {
        (phase, at)
    } else {
        let step = spec_transition(cfg, phase, at, events.first());
        state_after(cfg, step.0, step.1, events.drop_first())
    }
}

/// How many suspend invocations a list of actions contains.
pub open spec fn suspend_count(acts: Seq<Action>) -> nat
    decreases acts.len(),
{
    if acts.len() == 0 {
        0
    } else {
        suspend_count(acts.drop_first()) + (if acts.first() is Suspend {
            1nat
        } else {
            0nat
        })
    }
}

/// How many probes a list of actions contains.
pub open spec fn probe_count(acts: Seq<Action>) -> nat
    decreases acts.len(),
{
    if acts.len() == 0 {
        0
    } else {
        probe_count(acts.drop_first()) + (if acts.first() is Probe {
            1nat
        } else {
            0nat
        })
    }
}

/// One unfolding of a non-empty run.
pub proof fn lemma_run_step(
    cfg: PortalConfig,
    phase: MonitoringPhase,
    at: Awaiting,
    events: Seq<Event>,
)
    requires
        events.len() > 0,
    ensures
        ({
            let step = spec_transition(cfg, phase, at, events.first());
            &&& run_actions(cfg, phase, at, events) == seq![step.2] + run_actions(
                cfg,
                step.0,
                step.1,
                events.drop_first(),
            )
            &&& state_after(cfg, phase, at, events) == state_after(
                cfg,
                step.0,
                step.1,
                events.drop_first(),
            )
        }),
{
}

/// Prepending one action to a list shifts the counts by whether that
/// action probes or suspends.
pub proof fn lemma_counts_cons(a: Action, rest: Seq<Action>)
    ensures
        suspend_count(seq![a] + rest) == suspend_count(rest) + (if a is Suspend {
            1nat
        } else {
            0nat
        }),
        probe_count(seq![a] + rest) == probe_count(rest) + (if a is Probe {
            1nat
        } else {
            0nat
        }),
{
    let s = seq![a] + rest;
    assert(s.len() > 0);
    assert(s.first() == a);
    assert(s.drop_first() =~= rest);
}

/// For every configuration and starting phase: when the pause store
/// reports an active window at the start of a cycle, that cycle performs
/// no probe and no suspend call.  It only sleeps one poll interval and
/// opens the next cycle's pause read, ending in `PausedSkip`.
pub proof fn lemma_paused_cycle_skips(cfg: PortalConfig, phase: MonitoringPhase)
    requires
        cfg.wf(),
    ensures
        ({
            let events = seq![Event::PauseStatus { active: true }, Event::SleepDone];
            let acts = run_actions(cfg, phase, Awaiting::PauseAtStart, events);
            &&& acts == seq![
                Action::Sleep { seconds: cfg.scan_interval_sec },
                Action::ReadPause,
            ]
            &&& probe_count(acts) == 0
            &&& suspend_count(acts) == 0
            &&& state_after(cfg, phase, Awaiting::PauseAtStart, events) == (
                MonitoringPhase::PausedSkip,
                Awaiting::PauseAtStart,
            )
        }),
{
    let events = seq![Event::PauseStatus { active: true }, Event::SleepDone];
    let acts = run_actions(cfg, phase, Awaiting::PauseAtStart, events);
    lemma_run_step(cfg, phase, Awaiting::PauseAtStart, events);
    let events1 = events.drop_first();
    assert(events1 =~= seq![Event::SleepDone]);
    lemma_run_step(cfg, MonitoringPhase::PausedSkip, Awaiting::PollWait, events1);
    let events2 = events1.drop_first();
    assert(events2 =~= Seq::<Event>::empty());
    assert(run_actions(cfg, MonitoringPhase::PausedSkip, Awaiting::PauseAtStart, events2)
        =~= Seq::<Action>::empty());
    assert(acts =~= seq![Action::Sleep { seconds: cfg.scan_interval_sec }, Action::ReadPause]);
    lemma_counts_cons(Action::ReadPause, Seq::empty());
    assert(seq![Action::ReadPause] + Seq::<Action>::empty() =~= seq![Action::ReadPause]);
    lemma_counts_cons(Action::Sleep { seconds: cfg.scan_interval_sec }, seq![Action::ReadPause]);
    assert(seq![Action::Sleep { seconds: cfg.scan_interval_sec }] + seq![Action::ReadPause]
        =~= acts);
}

/// For every configuration, any grace period included: a single transient
/// loss — first probe failed, confirming re-probe succeeded — never
/// results in a suspend call.  The cycle probes twice, sleeps only the
/// grace period, and returns the machine to `Idle` at the next cycle's
/// pause read.
pub proof fn lemma_transient_loss_never_suspends(cfg: PortalConfig, phase: MonitoringPhase)
    requires
        cfg.wf(),
    ensures
        ({
            let events = seq![
                Event::PauseStatus { active: false },
                Event::ProbeResult { reachable: false },
                Event::SleepDone,
                Event::PauseStatus { active: false },
                Event::ProbeResult { reachable: true },
            ];
            let acts = run_actions(cfg, phase, Awaiting::PauseAtStart, events);
            &&& acts == seq![
                Action::Probe,
                Action::Sleep { seconds: cfg.grace_period_sec },
                Action::ReadPause,
                Action::Probe,
                Action::ReadPause,
            ]
            &&& suspend_count(acts) == 0
            &&& state_after(cfg, phase, Awaiting::PauseAtStart, events) == (
                MonitoringPhase::Idle,
                Awaiting::PauseAtStart,
            )
        }),
{
    let events = seq![
        Event::PauseStatus { active: false },
        Event::ProbeResult { reachable: false },
        Event::SleepDone,
        Event::PauseStatus { active: false },
        Event::ProbeResult { reachable: true },
    ];
    let acts = run_actions(cfg, phase, Awaiting::PauseAtStart, events);
    lemma_run_step(cfg, phase, Awaiting::PauseAtStart, events);
    let e1 = events.drop_first();
    assert(e1 =~= seq![
        Event::ProbeResult { reachable: false },
        Event::SleepDone,
        Event::PauseStatus { active: false },
        Event::ProbeResult { reachable: true },
    ]);
    lemma_run_step(cfg, phase, Awaiting::FirstProbe, e1);
    let e2 = e1.drop_first();
    assert(e2 =~= seq![
        Event::SleepDone,
        Event::PauseStatus { active: false },
        Event::ProbeResult { reachable: true },
    ]);
    lemma_run_step(cfg, MonitoringPhase::GraceWait, Awaiting::GraceSleep, e2);
    let e3 = e2.drop_first();
    assert(e3 =~= seq![
        Event::PauseStatus { active: false },
        Event::ProbeResult { reachable: true },
    ]);
    lemma_run_step(cfg, MonitoringPhase::GraceWait, Awaiting::PauseMidCycle, e3);
    let e4 = e3.drop_first();
    assert(e4 =~= seq![Event::ProbeResult { reachable: true }]);
    lemma_run_step(cfg, MonitoringPhase::GraceWait, Awaiting::SecondProbe, e4);
    let e5 = e4.drop_first();
    assert(e5 =~= Seq::<Event>::empty());
    assert(run_actions(cfg, MonitoringPhase::Idle, Awaiting::PauseAtStart, e5)
        =~= Seq::<Action>::empty());
    let expected = seq![
        Action::Probe,
        Action::Sleep { seconds: cfg.grace_period_sec },
        Action::ReadPause,
        Action::Probe,
        Action::ReadPause,
    ];
    assert(acts =~= expected);
    lemma_suspend_count_five(expected);
}

/// For every configuration, any grace period included: two consecutive
/// probe failures — the initial probe and the grace re-probe — with the
/// pause store clear at both checks result in exactly one suspend call,
/// for the configured suspend duration.
pub proof fn lemma_confirmed_loss_suspends_once(cfg: PortalConfig, phase: MonitoringPhase)
    requires
        cfg.wf(),
    ensures
        ({
            let events = seq![
                Event::PauseStatus { active: false },
                Event::ProbeResult { reachable: false },
                Event::SleepDone,
                Event::PauseStatus { active: false },
                Event::ProbeResult { reachable: false },
            ];
            let acts = run_actions(cfg, phase, Awaiting::PauseAtStart, events);
            &&& acts == seq![
                Action::Probe,
                Action::Sleep { seconds: cfg.grace_period_sec },
                Action::ReadPause,
                Action::Probe,
                Action::Suspend { seconds: cfg.spec_suspend_seconds() },
            ]
            &&& suspend_count(acts) == 1
            &&& state_after(cfg, phase, Awaiting::PauseAtStart, events) == (
                MonitoringPhase::Suspending,
                Awaiting::SuspendOutcome,
            )
        }),
{
    let events = seq![
        Event::PauseStatus { active: false },
        Event::ProbeResult { reachable: false },
        Event::SleepDone,
        Event::PauseStatus { active: false },
        Event::ProbeResult { reachable: false },
    ];
    let acts = run_actions(cfg, phase, Awaiting::PauseAtStart, events);
    lemma_run_step(cfg, phase, Awaiting::PauseAtStart, events);
    let e1 = events.drop_first();
    assert(e1 =~= seq![
        Event::ProbeResult { reachable: false },
        Event::SleepDone,
        Event::PauseStatus { active: false },
        Event::ProbeResult { reachable: false },
    ]);
    lemma_run_step(cfg, phase, Awaiting::FirstProbe, e1);
    let e2 = e1.drop_first();
    assert(e2 =~= seq![
        Event::SleepDone,
        Event::PauseStatus { active: false },
        Event::ProbeResult { reachable: false },
    ]);
    lemma_run_step(cfg, MonitoringPhase::GraceWait, Awaiting::GraceSleep, e2);
    let e3 = e2.drop_first();
    assert(e3 =~= seq![
        Event::PauseStatus { active: false },
        Event::ProbeResult { reachable: false },
    ]);
    lemma_run_step(cfg, MonitoringPhase::GraceWait, Awaiting::PauseMidCycle, e3);
    let e4 = e3.drop_first();
    assert(e4 =~= seq![Event::ProbeResult { reachable: false }]);
    lemma_run_step(cfg, MonitoringPhase::GraceWait, Awaiting::SecondProbe, e4);
    let e5 = e4.drop_first();
    assert(e5 =~= Seq::<Event>::empty());
    assert(run_actions(cfg, MonitoringPhase::Suspending, Awaiting::SuspendOutcome, e5)
        =~= Seq::<Action>::empty());
    let expected = seq![
        Action::Probe,
        Action::Sleep { seconds: cfg.grace_period_sec },
        Action::ReadPause,
        Action::Probe,
        Action::Suspend { seconds: cfg.spec_suspend_seconds() },
    ];
    assert(acts =~= expected);
    lemma_suspend_count_five(expected);
}

/// A pause that became active between the two probes wins over the
/// in-flight loss determination: the cycle ends after the mid-grace pause
/// read, with no second probe and no suspend call, in `PausedSkip`.
pub proof fn lemma_pause_mid_grace_blocks_suspend(cfg: PortalConfig, phase: MonitoringPhase)
    requires
        cfg.wf(),
    ensures
        ({
            let events = seq![
                Event::PauseStatus { active: false },
                Event::ProbeResult { reachable: false },
                Event::SleepDone,
                Event::PauseStatus { active: true },
            ];
            let acts = run_actions(cfg, phase, Awaiting::PauseAtStart, events);
            &&& acts == seq![
                Action::Probe,
                Action::Sleep { seconds: cfg.grace_period_sec },
                Action::ReadPause,
                Action::ReadPause,
            ]
            &&& suspend_count(acts) == 0
            &&& state_after(cfg, phase, Awaiting::PauseAtStart, events) == (
                MonitoringPhase::PausedSkip,
                Awaiting::PauseAtStart,
            )
        }),
{
    let events = seq![
        Event::PauseStatus { active: false },
        Event::ProbeResult { reachable: false },
        Event::SleepDone,
        Event::PauseStatus { active: true },
    ];
    let acts = run_actions(cfg, phase, Awaiting::PauseAtStart, events);
    lemma_run_step(cfg, phase, Awaiting::PauseAtStart, events);
    let e1 = events.drop_first();
    assert(e1 =~= seq![
        Event::ProbeResult { reachable: false },
        Event::SleepDone,
        Event::PauseStatus { active: true },
    ]);
    lemma_run_step(cfg, phase, Awaiting::FirstProbe, e1);
    let e2 = e1.drop_first();
    assert(e2 =~= seq![Event::SleepDone, Event::PauseStatus { active: true }]);
    lemma_run_step(cfg, MonitoringPhase::GraceWait, Awaiting::GraceSleep, e2);
    let e3 = e2.drop_first();
    assert(e3 =~= seq![Event::PauseStatus { active: true }]);
    lemma_run_step(cfg, MonitoringPhase::GraceWait, Awaiting::PauseMidCycle, e3);
    let e4 = e3.drop_first();
    assert(e4 =~= Seq::<Event>::empty());
    assert(run_actions(cfg, MonitoringPhase::PausedSkip, Awaiting::PauseAtStart, e4)
        =~= Seq::<Action>::empty());
    let expected = seq![
        Action::Probe,
        Action::Sleep { seconds: cfg.grace_period_sec },
        Action::ReadPause,
        Action::ReadPause,
    ];
    assert(acts =~= expected);
    lemma_counts_cons(Action::ReadPause, Seq::empty());
    assert(seq![Action::ReadPause] + Seq::<Action>::empty() =~= seq![Action::ReadPause]);
    lemma_counts_cons(Action::ReadPause, seq![Action::ReadPause]);
    assert(seq![Action::ReadPause] + seq![Action::ReadPause]
        =~= seq![Action::ReadPause, Action::ReadPause]);
    lemma_counts_cons(
        Action::Sleep { seconds: cfg.grace_period_sec },
        seq![Action::ReadPause, Action::ReadPause],
    );
    assert(seq![Action::Sleep { seconds: cfg.grace_period_sec }]
        + seq![Action::ReadPause, Action::ReadPause]
        =~= expected.drop_first());
    lemma_counts_cons(Action::Probe, expected.drop_first());
    assert(seq![Action::Probe] + expected.drop_first() =~= expected);
}

/// The supervisor never invokes the suspend while the pause store reports
/// an active window.  Only the confirming re-probe hands out a suspend,
/// the re-probe is reached only through the mid-grace pause read answering
/// "clear", and the first probe only through the opening pause read
/// answering "clear" — so every suspend sits behind two pause reads that
/// both found no active window.
pub proof fn lemma_suspend_needs_clear_pause(
    cfg: PortalConfig,
    phase: MonitoringPhase,
    at: Awaiting,
    ev: Event,
)
    requires
        at.accepts(ev),
    ensures
        spec_transition(cfg, phase, at, ev).2 is Suspend ==> at is SecondProbe && ev == (
        Event::ProbeResult { reachable: false }),
        spec_transition(cfg, phase, at, ev).1 is SecondProbe ==> at is PauseMidCycle && ev == (
        Event::PauseStatus { active: false }),
        spec_transition(cfg, phase, at, ev).1 is FirstProbe ==> at is PauseAtStart && ev == (
        Event::PauseStatus { active: false }),
{
}

/// Suspend count of a five-action cycle, unfolded once per element.
proof fn lemma_suspend_count_five(acts: Seq<Action>)
    requires
        acts.len() == 5,
    ensures
        suspend_count(acts) == (if acts[0] is Suspend {
            1nat
        } else {
            0nat
        }) + (if acts[1] is Suspend {
            1nat
        } else {
            0nat
        }) + (if acts[2] is Suspend {
            1nat
        } else {
            0nat
        }) + (if acts[3] is Suspend {
            1nat
        } else {
            0nat
        }) + (if acts[4] is Suspend {
            1nat
        } else {
            0nat
        }),
{
    let a1 = acts.drop_first();
    let a2 = a1.drop_first();
    let a3 = a2.drop_first();
    let a4 = a3.drop_first();
    let a5 = a4.drop_first();
    assert(a5 =~= Seq::<Action>::empty());
    assert(suspend_count(a5) == 0);
    assert(a4.first() == acts[4]);
    assert(a3.first() == acts[3]);
    assert(a2.first() == acts[2]);
    assert(a1.first() == acts[1]);
    assert(acts.first() == acts[0]);
    assert(suspend_count(a4) == suspend_count(a5) + (if a4.first() is Suspend { 1nat } else { 0nat }));
    assert(suspend_count(a3) == suspend_count(a4) + (if a3.first() is Suspend { 1nat } else { 0nat }));
    assert(suspend_count(a2) == suspend_count(a3) + (if a2.first() is Suspend { 1nat } else { 0nat }));
    assert(suspend_count(a1) == suspend_count(a2) + (if a1.first() is Suspend { 1nat } else { 0nat }));
    assert(suspend_count(acts) == suspend_count(a1) + (if acts.first() is Suspend { 1nat } else { 0nat }));
}

} // verus!

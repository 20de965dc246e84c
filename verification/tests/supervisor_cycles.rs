use portal_daemon::config::{Language, PortalConfig};
use portal_daemon::pause::PauseStore;
use portal_daemon::supervisor::{
    Action, Event, MonitoringPhase, Supervisor, SUSPEND_FAILURE_COOLDOWN_SEC,
};

fn test_config() -> PortalConfig {
    PortalConfig {
        language: Language::En,
        lighthouse_ip: "192.168.1.1".to_string(),
        target_ssid: "Home".to_string(),
        sleep_minutes: 60,
        grace_period_sec: 300,
        wakeup_wait_sec: 30,
        scan_interval_sec: 60,
    }
}

#[test]
fn paused_cycle_probes_nothing() {
    // A pause at cycle start: the whole cycle is one poll-interval sleep
    // and the next cycle's pause read -- no probe, no suspend.
    let cfg = test_config();
    assert!(cfg.validate());
    let mut sup = Supervisor::new(cfg);
    assert_eq!(sup.first_action(), Action::ReadPause);
    let a = sup.step(Event::PauseStatus { active: true });
    assert_eq!(a, Action::Sleep { seconds: 60 });
    assert_eq!(sup.phase, MonitoringPhase::PausedSkip);
    let a = sup.step(Event::SleepDone);
    assert_eq!(a, Action::ReadPause);
    assert_eq!(sup.phase, MonitoringPhase::PausedSkip);
}

#[test]
fn reachable_probe_keeps_idling() {
    let cfg = test_config();
    let mut sup = Supervisor::new(cfg);
    let a = sup.step(Event::PauseStatus { active: false });
    assert_eq!(a, Action::Probe);
    let a = sup.step(Event::ProbeResult { reachable: true });
    assert_eq!(a, Action::Sleep { seconds: 60 });
    assert_eq!(sup.phase, MonitoringPhase::Idle);
    let a = sup.step(Event::SleepDone);
    assert_eq!(a, Action::ReadPause);
}

#[test]
fn unreachable_throughout_suspends_once() {
    // Grace 300 s, target unreachable at both probes: exactly one suspend
    // for the configured duration.
    let cfg = test_config();
    let mut sup = Supervisor::new(cfg);
    let mut suspends = 0;
    let a = sup.step(Event::PauseStatus { active: false });
    assert_eq!(a, Action::Probe);
    let a = sup.step(Event::ProbeResult { reachable: false });
    assert_eq!(a, Action::Sleep { seconds: 300 });
    assert_eq!(sup.phase, MonitoringPhase::GraceWait);
    let a = sup.step(Event::SleepDone);
    assert_eq!(a, Action::ReadPause);
    let a = sup.step(Event::PauseStatus { active: false });
    assert_eq!(a, Action::Probe);
    let a = sup.step(Event::ProbeResult { reachable: false });
    if let Action::Suspend { seconds } = a {
        suspends += 1;
        assert_eq!(seconds, 3600);
    }
    assert_eq!(suspends, 1);
    assert_eq!(sup.phase, MonitoringPhase::Suspending);
}

#[test]
fn recovery_within_grace_never_suspends() {
    // Target down, then back before the re-probe: a false alarm, no
    // suspend, machine back to Idle for the next cycle.
    let cfg = test_config();
    let mut sup = Supervisor::new(cfg);
    let a = sup.step(Event::PauseStatus { active: false });
    assert_eq!(a, Action::Probe);
    let a = sup.step(Event::ProbeResult { reachable: false });
    assert_eq!(a, Action::Sleep { seconds: 300 });
    let a = sup.step(Event::SleepDone);
    assert_eq!(a, Action::ReadPause);
    let a = sup.step(Event::PauseStatus { active: false });
    assert_eq!(a, Action::Probe);
    let a = sup.step(Event::ProbeResult { reachable: true });
    assert_eq!(a, Action::ReadPause);
    assert_eq!(sup.phase, MonitoringPhase::Idle);
}

#[test]
fn pause_between_probes_blocks_suspend() {
    // A pause activated during the grace sleep wins over the in-flight
    // loss: the cycle is abandoned without a second probe.
    let cfg = test_config();
    let mut sup = Supervisor::new(cfg);
    sup.step(Event::PauseStatus { active: false });
    sup.step(Event::ProbeResult { reachable: false });
    let a = sup.step(Event::SleepDone);
    assert_eq!(a, Action::ReadPause);
    let a = sup.step(Event::PauseStatus { active: true });
    assert_eq!(a, Action::ReadPause);
    assert_eq!(sup.phase, MonitoringPhase::PausedSkip);
}

#[test]
fn successful_suspend_waits_settle_then_polls() {
    let cfg = test_config();
    let mut sup = Supervisor::new(cfg);
    sup.step(Event::PauseStatus { active: false });
    sup.step(Event::ProbeResult { reachable: false });
    sup.step(Event::SleepDone);
    sup.step(Event::PauseStatus { active: false });
    let a = sup.step(Event::ProbeResult { reachable: false });
    assert_eq!(a, Action::Suspend { seconds: 3600 });
    let a = sup.step(Event::SuspendDone { success: true });
    assert_eq!(a, Action::Sleep { seconds: 30 });
    let a = sup.step(Event::SleepDone);
    assert_eq!(a, Action::ReadPause);
    assert_eq!(sup.phase, MonitoringPhase::Idle);
}

#[test]
fn failed_suspend_cools_down_and_resumes() {
    // A failed suspend costs the fixed cooldown, then the settle wait,
    // then polling resumes from Idle -- the machine keeps running.
    let cfg = test_config();
    let mut sup = Supervisor::new(cfg);
    sup.step(Event::PauseStatus { active: false });
    sup.step(Event::ProbeResult { reachable: false });
    sup.step(Event::SleepDone);
    sup.step(Event::PauseStatus { active: false });
    let a = sup.step(Event::ProbeResult { reachable: false });
    assert_eq!(a, Action::Suspend { seconds: 3600 });
    let a = sup.step(Event::SuspendDone { success: false });
    assert_eq!(a, Action::Sleep { seconds: SUSPEND_FAILURE_COOLDOWN_SEC });
    let a = sup.step(Event::SleepDone);
    assert_eq!(a, Action::Sleep { seconds: 30 });
    let a = sup.step(Event::SleepDone);
    assert_eq!(a, Action::ReadPause);
    assert_eq!(sup.phase, MonitoringPhase::Idle);
    // The next cycle proceeds normally.
    let a = sup.step(Event::PauseStatus { active: false });
    assert_eq!(a, Action::Probe);
}

#[test]
fn pause_window_skips_cycles_until_expiry() {
    // A ten-minute pause set at cycle start: every cycle within the
    // window skips probing; the first read past expiry resumes probing
    // in that very cycle.
    let cfg = test_config();
    let mut sup = Supervisor::new(cfg);
    let start: u64 = 1_700_000_000;
    let mut store = PauseStore::absent();
    store.set(start + 600);

    let mut now = start;
    let mut cycles = 0;
    while now < start + 600 {
        let paused = store.read(now).is_some();
        assert!(paused, "cycle at {now} should still be paused");
        let a = sup.step(Event::PauseStatus { active: paused });
        assert_eq!(a, Action::Sleep { seconds: 60 });
        let a = sup.step(Event::SleepDone);
        assert_eq!(a, Action::ReadPause);
        now += 60;
        cycles += 1;
    }
    assert_eq!(cycles, 10);
    // Minute eleven: the store reads empty and probing resumes at once.
    let paused = store.read(now).is_some();
    assert!(!paused);
    assert!(store.marker.is_none());
    let a = sup.step(Event::PauseStatus { active: paused });
    assert_eq!(a, Action::Probe);
}

//! Run configuration for the daemon.
//!
//! A configuration is loaded once at startup and never mutated by the
//! supervisor.  `wf` states the conditions the supervisor relies on: a
//! non-empty target address, a positive poll interval, a positive suspend
//! duration, and a suspend duration whose second count fits in `u64`.

use vstd::prelude::*;

verus! {

/// Language of the operator-facing messages.  Presentation only: it never
/// influences the supervisor's control flow.
#[derive(Clone, Copy, Debug, PartialEq, Eq, Structural)]
pub enum Language {
    En,
    Ru,
}

/// Immutable run parameters, one record per process lifetime.
#[derive(Debug)]
pub struct PortalConfig {
    pub language: Language,
    /// Address of the reference host whose reachability is probed.
    pub lighthouse_ip: String,
    /// Display name of the network the address was picked from.
    pub target_ssid: String,
    /// How long to suspend the host once a loss is confirmed, in minutes.
    pub sleep_minutes: u64,
    /// Debounce window between the first failed probe and the confirming
    /// re-probe, in seconds.
    pub grace_period_sec: u64,
    /// Post-wake settle wait before polling resumes, in seconds.
    pub wakeup_wait_sec: u64,
    /// Poll cadence of the supervisor loop, in seconds.
    pub scan_interval_sec: u64,
}

impl PortalConfig {
    /// Conditions the supervisor relies on: target address present, poll
    /// interval and suspend duration positive, and the suspend duration
    /// expressible in whole seconds without overflow.
    pub open spec fn wf(self) -> bool {
        &&& self.lighthouse_ip@.len() > 0
        &&& self.scan_interval_sec >= 1
        &&& self.sleep_minutes >= 1
        &&& self.sleep_minutes * 60 <= u64::MAX
    }

    /// The configured suspend duration, in seconds.
    pub open spec fn spec_suspend_seconds(self) -> u64
        recommends
            self.wf(),
    {
        (self.sleep_minutes * 60) as u64
    }

    /// Checks `wf` at run time, for values that arrive from outside.
    pub fn validate(&self) -> (ok: bool)
        ensures
            ok == self.wf(),
    {
        !self.lighthouse_ip.as_str().is_empty() && self.scan_interval_sec >= 1
            && self.sleep_minutes >= 1 && self.sleep_minutes.checked_mul(60).is_some()
    }

    /// The configured suspend duration, in seconds.
    pub fn suspend_seconds(&self) -> (r: u64)
        requires
            self.wf(),
        ensures
            r == self.spec_suspend_seconds(),
    {
        self.sleep_minutes * 60
    }
}

impl Default for PortalConfig {
    /// The stock configuration offered before the operator has answered the
    /// setup questions.
    fn default() -> (c: Self)
        ensures
            c.language == Language::En,
            c.lighthouse_ip@ == "192.168.1.1"@,
            c.target_ssid@ == "Unknown"@,
            c.sleep_minutes == 60,
            c.grace_period_sec == 300,
            c.wakeup_wait_sec == 30,
            c.scan_interval_sec == 60,
            c.wf(),
    {
        proof {
            reveal_strlit("192.168.1.1");
        }
        PortalConfig {
            language: Language::En,
            lighthouse_ip: String::from_str("192.168.1.1"),
            target_ssid: String::from_str("Unknown"),
            sleep_minutes: 60,
            grace_period_sec: 300,
            wakeup_wait_sec: 30,
            scan_interval_sec: 60,
        }
    }
}

} // verus!

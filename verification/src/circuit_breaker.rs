//! The decision that the Kafka health monitor takes after each probe.

use vstd::prelude::*;

verus! {

/// Seconds between two probes of the Kafka broker.
pub const HEALTH_CHECK_INTERVAL_SECS: u64 = 10;

/// Whether Kafka counts as available before the first probe.
pub const KAFKA_INITIALLY_AVAILABLE: bool = true;

/// What the monitor reports after a probe.
#[derive(Clone, Copy, Debug, PartialEq, Eq, Structural)]
pub enum HealthNotice {
    /// The broker could not be reached; records go to local storage.
    Unreachable,
    /// The broker answers again after being unreachable.
    BackOnline,
    /// The broker answers, as it did before.
    Steady,
}

/// The outcome of one probe: whether Kafka now counts as available, and
/// what to report.
#[derive(Clone, Copy, Debug, PartialEq, Eq, Structural)]
pub struct HealthStep {
    pub available: bool,
    pub notice: HealthNotice,
}

/// The notice a probe gives, from the availability before it and whether
/// the broker was reached.
pub open spec fn notice_for(was_available: bool, reachable: bool) -> HealthNotice {
    if !reachable {
        HealthNotice::Unreachable
    } else if !was_available {
        HealthNotice::BackOnline
    } else {
        HealthNotice::Steady
    }
}

/// Decides the new availability and the notice after a probe: Kafka is
/// available exactly when the probe reached it; an unreachable broker is
/// reported on every failed probe, a recovery once, on the first probe
/// that succeeds after a failure.
pub fn monitor_step(was_available: bool, reachable: bool) -> (r: HealthStep)
    ensures
        r.available == reachable,
        r.notice == notice_for(was_available, reachable),
{
    if !reachable {
        HealthStep { available: false, notice: HealthNotice::Unreachable }
    } else if !was_available {
        HealthStep { available: true, notice: HealthNotice::BackOnline }
    } else {
        HealthStep { available: true, notice: HealthNotice::Steady }
    }
}

} // verus!

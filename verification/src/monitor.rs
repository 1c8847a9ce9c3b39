//! Decision logic of the digital ready-line monitor.
//!
//! The device signals readiness on a digital input: logical low means ready.
//! The monitor polls that line at a fixed interval and may return only after
//! it has observed logical low at least once. The polling loop itself, with
//! its sleeps and its pin handle, belongs to the surrounding program; this
//! module holds the per-poll decision and a replay of the whole loop against
//! a recorded sequence of line samples, so the monitor's behaviour can be
//! checked over a bounded number of polls.

use vstd::prelude::*;

verus! {

/// Interval between two polls of the ready line, in milliseconds.
pub const POLL_INTERVAL_MS: u64 = 100;

/// What the monitor does after one look at the line.
#[derive(Clone, Copy, Debug, PartialEq, Eq, Structural)]
pub enum MonitorDecision {
    /// The line read logical low: the device is ready.
    Ready,
    /// The line read logical high: sleep one interval and poll again.
    KeepPolling,
}

/// One poll of the ready line: the monitor reports ready exactly when the
/// line reads logical low.
pub fn monitor_step(line_is_low: bool) -> (d: MonitorDecision)
    ensures
        d == MonitorDecision::Ready <==> line_is_low,
{
    if line_is_low {
        MonitorDecision::Ready
    } else {
        MonitorDecision::KeepPolling
    }
}

/// Replay the monitor against a recorded sequence of line samples, one per
/// poll; `true` stands for logical low. The result is the index of the poll
/// at which the monitor returned, so the monitor returns only upon observing
/// logical low, never earlier; on a line that stays high it keeps polling
/// through every sample and never reports ready.
pub fn run_monitor(samples: &Vec<bool>) -> (r: Option<usize>)
    ensures
        match r {
            Some(i) => {
                &&& i < samples@.len()
                &&& samples@[i as int]
                &&& forall|j: int| 0 <= j < i ==> !samples@[j]
            },
            None => forall|j: int| 0 <= j < samples@.len() ==> !samples@[j],
        },
{
    let mut idx: usize = 0;
    while idx < samples.len()
        invariant
            idx <= samples@.len(),
            forall|j: int| 0 <= j < idx ==> !samples@[j],
        decreases samples@.len() - idx,
    {
        let d = monitor_step(samples[idx]);
        if d == MonitorDecision::Ready {
            return Some(idx);
        }
        idx = idx + 1;
    }
    None
}

} // verus!

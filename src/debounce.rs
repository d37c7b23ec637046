//! Quiet-period confirmation after the last observed activity.

use vstd::prelude::*;

verus! {

/// Whether the quiet period has elapsed at `now`: some activity was recorded,
/// and at least `debounce_ms` milliseconds passed since it. A time before the
/// recorded one counts as no time passed.
pub open spec fn quiet_period_over(last_event_time: Option<u64>, now: u64, debounce_ms: u64) -> bool {
    match last_event_time {
        Some(t) => if now >= t {
            now - t >= debounce_ms
        } else {
            debounce_ms == 0
        },
        None => false,
    }
}

/// Tracks the time of the last activity; times are milliseconds of a
/// monotonic clock.
#[derive(Debug)]
pub struct DebounceGate {
    last_event_time: Option<u64>,
    debounce_ms: u64,
}

/// The observable state of a gate.
pub ghost struct GateState {
    pub last_event_time: Option<u64>,
    pub debounce_ms: u64,
}

impl View for DebounceGate {
    type V = GateState;

    closed spec fn view(&self) -> GateState {
        GateState { last_event_time: self.last_event_time, debounce_ms: self.debounce_ms }
    }
}

impl DebounceGate {
    /// A gate with the given quiet period and no recorded activity.
    pub fn new(debounce_ms: u64) -> (r: DebounceGate)
        ensures
            r@ == (GateState { last_event_time: None, debounce_ms }),
    {
        DebounceGate { last_event_time: None, debounce_ms }
    }

    /// The quiet period in milliseconds.
    pub fn debounce_ms(&self) -> (r: u64)
        ensures
            r == self@.debounce_ms,
    {
        self.debounce_ms
    }

    /// The time of the last recorded activity, if any is pending.
    pub fn last_event_time(&self) -> (r: Option<u64>)
        ensures
            r == self@.last_event_time,
    {
        self.last_event_time
    }

    /// Records activity at `now`.
    pub fn record_activity(&mut self, now: u64)
        ensures
            final(self)@ == (GateState { last_event_time: Some(now), ..old(self)@ }),
    {
        self.last_event_time = Some(now);
    }

    /// Forgets any recorded activity.
    pub fn clear(&mut self)
        ensures
            final(self)@ == (GateState { last_event_time: None, ..old(self)@ }),
    {
        self.last_event_time = None;
    }

    /// Whether the quiet period has elapsed at `now`; when it has, the
    /// recorded activity is cleared, so that it fires once.
    pub fn poll_expired(&mut self, now: u64) -> (r: bool)
        ensures
            r == quiet_period_over(old(self)@.last_event_time, now, old(self)@.debounce_ms),
            final(self)@ == if r {
                GateState { last_event_time: None, ..old(self)@ }
            } else {
                old(self)@
            },
    {
        match self.last_event_time {
            Some(t) => {
                let elapsed: u64 = now.saturating_sub(t);
                if elapsed >= self.debounce_ms {
                    self.last_event_time = None;
                    true
                } else {
                    false
                }
            },
            None => false,
        }
    }
}

} // verus!

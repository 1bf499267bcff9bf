use std::sync::Arc;
use std::sync::atomic::{AtomicU64, Ordering};
use vstd::prelude::*;

use crate::bus::share_counter;

verus! {

/// Whether an activation counter value stands for a running component.
///
/// The counter starts at 0 (stopped) and each start or stop moves it on by
/// one, so odd values are running activations and even values are stopped.
pub open spec fn is_running_value(v: u64) -> bool {
    v % 2 == 1
}

/// The counter value after a start from `v`; `None` when already running or
/// when no activation number is left.
pub open spec fn spec_after_start(v: u64) -> Option<u64> {
    if is_running_value(v) || v == u64::MAX {
        None
    } else {
        Some((v + 1) as u64)
    }
}

/// The counter value after a stop from `v`; `None` when already stopped.
pub open spec fn spec_after_stop(v: u64) -> Option<u64> {
    if !is_running_value(v) {
        None
    } else if v == u64::MAX {
        Some(0)
    } else {
        Some((v + 1) as u64)
    }
}

/// The counter value after `ops` (true: start, false: stop) from `v`;
/// an operation that does not apply leaves the value as it is.
pub open spec fn run_ops(v: u64, ops: Seq<bool>) -> u64
    decreases ops.len(),
{
    if ops.len() == 0 {
        v
    } else {
        let step = if ops[0] {
            spec_after_start(v)
        } else {
            spec_after_stop(v)
        };
        let next = match step {
            Some(n) => n,
            None => v,
        };
        run_ops(next, ops.drop_first())
    }
}

/// The counter transition of a start.
pub fn after_start(v: u64) -> (r: Option<u64>)
    ensures
        r == spec_after_start(v),
{
    if v % 2 == 1 || v == u64::MAX {
        None
    } else {
        Some(v + 1)
    }
}

/// The counter transition of a stop.
pub fn after_stop(v: u64) -> (r: Option<u64>)
    ensures
        r == spec_after_stop(v),
{
    if v % 2 == 0 {
        None
    } else if v == u64::MAX {
        Some(0)
    } else {
        Some(v + 1)
    }
}

/// Whether a counter value stands for a running component.
pub fn counter_is_running(v: u64) -> (r: bool)
    ensures
        r == is_running_value(v),
{
    v % 2 == 1
}

/// Once an activation has been stopped, no later sequence of starts and
/// stops makes it current again while the counter does not wrap, and a start
/// after the stop begins a new running activation.
pub proof fn lemma_stop_is_final(a: u64, ops: Seq<bool>)
    requires
        is_running_value(a),
        a + 1 + ops.len() < u64::MAX,
    ensures
        ({
            let stopped = spec_after_stop(a).unwrap();
            &&& !is_running_value(stopped)
            &&& run_ops(stopped, ops) != a
            &&& spec_after_start(stopped) matches Some(b) && is_running_value(b) && b != a
        }),
{
    lemma_run_ops_bounds((a + 1) as u64, ops);
}

/// While the counter cannot reach its largest value, it only moves on, by at
/// most one per operation.
proof fn lemma_run_ops_bounds(v: u64, ops: Seq<bool>)
    requires
        v + ops.len() < u64::MAX,
    ensures
        v <= run_ops(v, ops) <= v + ops.len(),
    decreases ops.len(),
{
    if ops.len() > 0 {
        let step = if ops[0] {
            spec_after_start(v)
        } else {
            spec_after_stop(v)
        };
        let next = match step {
            Some(n) => n,
            None => v,
        };
        lemma_run_ops_bounds(next, ops.drop_first());
    }
}

/// The start/stop state shared by a component's handle and its worker.
///
/// Each start opens a new activation; a worker holds a [`RunToken`] of the
/// activation that spawned it and keeps going only while that activation is
/// the current one, so a stop followed by a quick start never leaves the old
/// worker running beside the new one.
pub struct Lifecycle {
    counter: Arc<AtomicU64>,
}

/// A worker's view of the activation that spawned it.
pub struct RunToken {
    counter: Arc<AtomicU64>,
    activation: u64,
}

impl Lifecycle {
    /// A stopped lifecycle.
    pub fn new() -> Lifecycle {
        Lifecycle { counter: Arc::new(AtomicU64::new(0)) }
    }

    /// Starts a new activation. Returns the token for its worker, or `None`
    /// when the component is already running (so one worker per activation).
    pub fn start(&self) -> (r: Option<RunToken>)
        ensures
            r matches Some(t) ==> is_running_value(t.activation()),
    {
        let cur = self.counter.load(Ordering::SeqCst);
        match after_start(cur) {
            None => None,
            Some(next) => {
                match self.counter.compare_exchange(cur, next, Ordering::SeqCst, Ordering::SeqCst) {
                    Ok(_) => Some(RunToken { counter: share_counter(&self.counter), activation: next }),
                    Err(_) => None,
                }
            },
        }
    }

    /// Ends the current activation, if any. Does not wait for the worker: it
    /// sees the change at the top of its next iteration.
    pub fn stop(&self) {
        let cur = self.counter.load(Ordering::SeqCst);
        match after_stop(cur) {
            None => {},
            Some(next) => {
                let _ = self.counter.compare_exchange(cur, next, Ordering::SeqCst, Ordering::SeqCst);
            },
        }
    }

    /// Whether an activation is current.
    pub fn is_running(&self) -> bool {
        counter_is_running(self.counter.load(Ordering::SeqCst))
    }
}

impl RunToken {
    /// The activation number this token belongs to.
    pub closed spec fn activation(&self) -> u64 {
        self.activation
    }

    /// Whether the activation of this token is still the current one.
    pub fn is_current(&self) -> bool {
        self.counter.load(Ordering::SeqCst) == self.activation
    }
}

} // verus!

//! Builds the aggregate read snapshot handed to the presentation layer.
//!
//! The registry never takes a registry-wide lock: the caller copies each
//! monitor's state under that monitor's own lock (`MonitorState::duplicate`)
//! and the functions here only assemble the copies. A snapshot therefore
//! reflects, for every monitor, a state from either before or after a full
//! per-tick update — never a partially written one.

use vstd::prelude::*;

use crate::config::Config;
use crate::status::{monitor_seq_equiv, MonitorState, Status};

verus! {

/// Copies every monitor state, one at a time, in registration order.
pub fn snapshot_monitors(states: &Vec<MonitorState>) -> (r: Vec<MonitorState>)
    ensures
        monitor_seq_equiv(states@, r@),
        forall|i: int| 0 <= i < r@.len() ==> states@[i].wf() ==> (#[trigger] r@[i]).wf(),
        forall|i: int|
            0 <= i < r@.len() ==> states@[i].consistent() ==> (#[trigger] r@[i]).consistent(),
{
    let mut r: Vec<MonitorState> = Vec::new();
    let mut i: usize = 0;
    while i < states.len()
        invariant
            i <= states.len(),
            r@.len() == i,
            forall|j: int| 0 <= j < i ==> #[trigger] states@[j].equiv(r@[j]),
            forall|j: int| 0 <= j < i ==> states@[j].wf() ==> (#[trigger] r@[j]).wf(),
            forall|j: int| 0 <= j < i ==> states@[j].consistent() ==> (#[trigger] r@[j]).consistent(),
        decreases states.len() - i,
    {
        r.push(states[i].duplicate());
        i = i + 1;
    }
    r
}

/// The full consistent snapshot: a copy of the global configuration plus a
/// copy of every monitor's current status and history, in registration
/// order.
pub fn build_snapshot(config: &Config, states: &Vec<MonitorState>) -> (r: Status)
    ensures
        config.equiv(r.config),
        monitor_seq_equiv(states@, r.monitors@),
        forall|i: int|
            0 <= i < r.monitors@.len() ==> states@[i].consistent() ==> (
            #[trigger] r.monitors@[i]).consistent(),
{
    let monitors = snapshot_monitors(states);
    Status { config: config.duplicate(), monitors }
}

} // verus!

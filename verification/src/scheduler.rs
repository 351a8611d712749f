//! Owns the set of per-monitor workers.
//!
//! The scheduler creates one worker per configured monitor and advances
//! each one independently: stepping one worker never reads or writes any
//! other worker's state, so one monitor's slow or hung command cannot delay
//! another monitor's ticks. The driver outside the core runs each worker on
//! its own execution unit and signals coordinated shutdown by reporting
//! `ShutdownRequested` to every worker; a worker that is mid-check finishes
//! that check (bounded by its own timeout) before it stops.

use vstd::prelude::*;

use crate::config::MonitorDirConfig;
use crate::worker::{WorkerAction, WorkerEvent, WorkerPhase, WorkerState};

verus! {

/// The set of per-monitor workers, in registration order.
pub struct Scheduler {
    pub workers: Vec<WorkerState>,
}

impl Scheduler {
    pub open spec fn wf(&self) -> bool {
        forall|i: int| 0 <= i < self.workers@.len() ==> (#[trigger] self.workers@[i]).wf()
    }

    /// Every worker has stopped; coordinated shutdown is complete.
    pub open spec fn spec_all_stopped(&self) -> bool {
        forall|i: int|
            0 <= i < self.workers@.len() ==> (#[trigger] self.workers@[i]).phase
                == WorkerPhase::Stopped
    }

    /// One idle worker per configured monitor, each with its first tick due
    /// at `now_ms` and no check started yet.
    pub fn start(configs: &Vec<MonitorDirConfig>, now_ms: u64) -> (s: Scheduler)
        requires
            forall|i: int| 0 <= i < configs@.len() ==> (#[trigger] configs@[i]).wf(),
        ensures
            s.workers@.len() == configs@.len(),
            forall|i: int|
                0 <= i < configs@.len() ==> #[trigger] s.workers@[i] == (WorkerState {
                    config: configs@[i],
                    phase: WorkerPhase::Idle,
                    next_deadline_ms: now_ms,
                    last_start_ms: 0,
                    started: false,
                }),
            s.wf(),
    {
        let mut workers: Vec<WorkerState> = Vec::new();
        let mut i: usize = 0;
        while i < configs.len()
            invariant
                i <= configs.len(),
                workers@.len() == i,
                forall|k: int| 0 <= k < configs@.len() ==> (#[trigger] configs@[k]).wf(),
                forall|k: int|
                    0 <= k < i ==> #[trigger] workers@[k] == (WorkerState {
                        config: configs@[k],
                        phase: WorkerPhase::Idle,
                        next_deadline_ms: now_ms,
                        last_start_ms: 0,
                        started: false,
                    }),
            decreases configs.len() - i,
        {
            workers.push(WorkerState::new(configs[i].duplicate(), now_ms));
            i = i + 1;
        }
        Scheduler { workers }
    }

    pub fn worker_count(&self) -> (n: usize)
        ensures
            n == self.workers@.len(),
    {
        self.workers.len()
    }

    /// Advances worker `i` by one observed event. Every other worker's
    /// state is untouched: monitors never block one another.
    pub fn step_worker(&mut self, i: usize, event: WorkerEvent) -> (action: WorkerAction)
        requires
            old(self).wf(),
            i < old(self).workers@.len(),
            old(self).workers@[i as int].event_fits(event),
        ensures
            final(self).workers@.len() == old(self).workers@.len(),
            final(self).workers@[i as int] == old(self).workers@[i as int].spec_step(event).0,
            action == old(self).workers@[i as int].spec_step(event).1,
            forall|j: int|
                0 <= j < old(self).workers@.len() && j != i ==> final(self).workers@[j] == old(
                    self,
                ).workers@[j],
            final(self).wf(),
    {
        self.workers[i].step(event)
    }

    /// Reports the shutdown signal to every worker, in order. Afterwards no
    /// worker ever starts another check: each one is `Stopped`, or
    /// `Stopping` with only its in-flight check left to finish and record.
    pub fn signal_all(&mut self)
        requires
            old(self).wf(),
        ensures
            final(self).workers@.len() == old(self).workers@.len(),
            forall|j: int|
                0 <= j < old(self).workers@.len() ==> #[trigger] final(self).workers@[j] == old(
                    self,
                ).workers@[j].spec_step(WorkerEvent::ShutdownRequested).0,
            forall|j: int|
                0 <= j < final(self).workers@.len() ==> ((#[trigger] final(self).workers@[j]).phase
                    == WorkerPhase::Stopping || final(self).workers@[j].phase
                    == WorkerPhase::Stopped),
            final(self).wf(),
    {
        let n = self.workers.len();
        let mut i: usize = 0;
        while i < n
            invariant
                i <= n,
                n == self.workers@.len(),
                self.workers@.len() == old(self).workers@.len(),
                old(self).wf(),
                forall|j: int|
                    0 <= j < i ==> #[trigger] self.workers@[j] == old(self).workers@[j].spec_step(
                        WorkerEvent::ShutdownRequested,
                    ).0,
                forall|j: int|
                    i <= j < n ==> #[trigger] self.workers@[j] == old(self).workers@[j],
            decreases n - i,
        {
            let _ = self.workers[i].step(WorkerEvent::ShutdownRequested);
            i = i + 1;
        }
    }

    /// Whether every worker has reached its terminal phase.
    pub fn all_stopped(&self) -> (r: bool)
        ensures
            r == self.spec_all_stopped(),
    {
        let mut i: usize = 0;
        while i < self.workers.len()
            invariant
                i <= self.workers@.len(),
                forall|j: int|
                    0 <= j < i ==> (#[trigger] self.workers@[j]).phase == WorkerPhase::Stopped,
            decreases self.workers@.len() - i,
        {
            if !matches!(self.workers[i].phase, WorkerPhase::Stopped) {
                return false;
            }
            i = i + 1;
        }
        true
    }
}

} // verus!

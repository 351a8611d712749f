//! Per-monitor scheduling state machine.
//!
//! One worker owns one monitor's timer. The blocking work — sleeping until
//! a deadline, running the check command, watching for the shutdown signal
//! — happens outside the core; the driver reports each observation as a
//! `WorkerEvent` and performs the `WorkerAction` handed back.
//!
//! Ticks are fixed-delay: the next deadline is the completion time of the
//! previous check plus the monitor's interval, so a slow check delays later
//! runs rather than queueing or overlapping them, and consecutive check
//! starts are always at least one interval apart.

use vstd::prelude::*;

use crate::config::MonitorDirConfig;

verus! {

/// Where a worker stands in its Idle -> Running -> Idle cycle, with the
/// Stopping -> Stopped path taken on shutdown.
#[derive(Clone, Copy, Debug, PartialEq, Eq, Structural)]
pub enum WorkerPhase {
    /// Waiting for the next tick deadline or a shutdown signal.
    Idle,
    /// A check is in flight.
    Running,
    /// A check is in flight and shutdown has been requested: the check is
    /// allowed to finish (bounded by its own timeout) and be recorded, then
    /// the worker stops.
    Stopping,
    /// Terminal: no further ticks are issued.
    Stopped,
}

/// What the driver observed, with clock readings in milliseconds.
#[derive(Clone, Copy, Debug, PartialEq, Eq, Structural)]
pub enum WorkerEvent {
    /// The worker is idle and the clock reads `now_ms`; the next tick may
    /// be due.
    TickDue { now_ms: u64 },
    /// The in-flight check finished (normally, by timeout, or as a spawn
    /// failure) at `completed_at_ms`.
    CheckCompleted { completed_at_ms: u64 },
    /// The global shutdown signal was observed.
    ShutdownRequested,
}

/// What the driver must do next.
pub enum WorkerAction {
    /// Run the monitor's check command, bounded by its timeout, then
    /// report `CheckCompleted` and record the classified outcome.
    StartCheck { command: String, timeout_ms: u64 },
    /// Sleep until the deadline (or a shutdown signal), then report
    /// `TickDue`.
    Sleep { deadline_ms: u64 },
    /// Let the in-flight check finish; shutdown waits for it.
    AwaitCompletion,
    /// Terminal: no further work for this monitor.
    Stop,
}

/// One monitor's scheduling state.
pub struct WorkerState {
    pub config: MonitorDirConfig,
    pub phase: WorkerPhase,
    /// While `Idle`: when the next tick is due.
    pub next_deadline_ms: u64,
    /// Once `started`: when the most recent check started.
    pub last_start_ms: u64,
    /// Whether any check has started yet.
    pub started: bool,
}

impl WorkerState {
    /// The scheduling invariant: while idle, the next tick deadline lies at
    /// least one interval after the most recent check's start.
    pub open spec fn wf(&self) -> bool {
        &&& self.config.wf()
        &&& self.phase == WorkerPhase::Idle && self.started
            ==> self.next_deadline_ms >= self.last_start_ms + self.config.test.interval_ms
    }

    /// A fresh worker: idle, no check started yet, first tick due at
    /// `now_ms`.
    pub fn new(config: MonitorDirConfig, now_ms: u64) -> (w: WorkerState)
        requires
            config.wf(),
        ensures
            w == (WorkerState {
                config: config,
                phase: WorkerPhase::Idle,
                next_deadline_ms: now_ms,
                last_start_ms: 0,
                started: false,
            }),
            w.wf(),
    {
        WorkerState {
            config,
            phase: WorkerPhase::Idle,
            next_deadline_ms: now_ms,
            last_start_ms: 0,
            started: false,
        }
    }

    /// Which events can occur in which phase. A tick is only waited for
    /// while idle; a completion only arrives while a check is in flight,
    /// completes no earlier than the check started, and leaves room in the
    /// clock for one more interval; shutdown can be observed at any time.
    pub open spec fn event_fits(self, event: WorkerEvent) -> bool {
        match event {
            WorkerEvent::TickDue { now_ms } => self.phase == WorkerPhase::Idle,
            WorkerEvent::CheckCompleted { completed_at_ms } => {
                &&& (self.phase == WorkerPhase::Running || self.phase == WorkerPhase::Stopping)
                &&& completed_at_ms >= self.last_start_ms
                &&& completed_at_ms + self.config.test.interval_ms <= u64::MAX
            },
            WorkerEvent::ShutdownRequested => true,
        }
    }

    /// The transition function. Events that `event_fits` rules out leave
    /// the state unchanged.
    pub open spec fn spec_step(self, event: WorkerEvent) -> (WorkerState, WorkerAction) {
        match event {
            WorkerEvent::TickDue { now_ms } => {
                if self.phase == WorkerPhase::Idle && now_ms >= self.next_deadline_ms {
                    (
                        WorkerState {
                            phase: WorkerPhase::Running,
                            last_start_ms: now_ms,
                            started: true,
                            ..self
                        },
                        WorkerAction::StartCheck {
                            command: self.config.test.command,
                            timeout_ms: self.config.test.timeout_ms,
                        },
                    )
                } else {
                    (self, WorkerAction::Sleep { deadline_ms: self.next_deadline_ms })
                }
            },
            WorkerEvent::CheckCompleted { completed_at_ms } => {
                if self.phase == WorkerPhase::Running {
                    (
                        WorkerState {
                            phase: WorkerPhase::Idle,
                            next_deadline_ms: (completed_at_ms
                                + self.config.test.interval_ms) as u64,
                            ..self
                        },
                        WorkerAction::Sleep {
                            deadline_ms: (completed_at_ms + self.config.test.interval_ms) as u64,
                        },
                    )
                } else if self.phase == WorkerPhase::Stopping {
                    (WorkerState { phase: WorkerPhase::Stopped, ..self }, WorkerAction::Stop)
                } else {
                    (self, WorkerAction::Stop)
                }
            },
            WorkerEvent::ShutdownRequested => {
                if self.phase == WorkerPhase::Running || self.phase == WorkerPhase::Stopping {
                    (WorkerState { phase: WorkerPhase::Stopping, ..self }, WorkerAction::AwaitCompletion)
                } else {
                    (WorkerState { phase: WorkerPhase::Stopped, ..self }, WorkerAction::Stop)
                }
            },
        }
    }

    /// Advances the state machine by one observed event.
    pub fn step(&mut self, event: WorkerEvent) -> (action: WorkerAction)
        requires
            old(self).wf(),
            old(self).event_fits(event),
        ensures
            *final(self) == old(self).spec_step(event).0,
            action == old(self).spec_step(event).1,
            final(self).wf(),
            final(self).config == old(self).config,
    {
        match event {
            WorkerEvent::TickDue { now_ms } => {
                if now_ms >= self.next_deadline_ms {
                    self.phase = WorkerPhase::Running;
                    self.last_start_ms = now_ms;
                    self.started = true;
                    WorkerAction::StartCheck {
                        command: self.config.test.command.clone(),
                        timeout_ms: self.config.test.timeout_ms,
                    }
                } else {
                    WorkerAction::Sleep { deadline_ms: self.next_deadline_ms }
                }
            },
            WorkerEvent::CheckCompleted { completed_at_ms } => {
                if matches!(self.phase, WorkerPhase::Running) {
                    self.next_deadline_ms = completed_at_ms + self.config.test.interval_ms;
                    self.phase = WorkerPhase::Idle;
                    WorkerAction::Sleep { deadline_ms: self.next_deadline_ms }
                } else {
                    self.phase = WorkerPhase::Stopped;
                    WorkerAction::Stop
                }
            },
            WorkerEvent::ShutdownRequested => {
                if matches!(self.phase, WorkerPhase::Running)
                    || matches!(self.phase, WorkerPhase::Stopping) {
                    self.phase = WorkerPhase::Stopping;
                    WorkerAction::AwaitCompletion
                } else {
                    self.phase = WorkerPhase::Stopped;
                    WorkerAction::Stop
                }
            },
        }
    }
}

/// Fixed-delay scheduling: whenever a tick actually starts a check on a
/// worker that has run before, at least one interval has passed since the
/// previous check of the same monitor started — consecutive check start
/// timestamps differ by at least the interval.
pub proof fn lemma_consecutive_starts_spaced(w: WorkerState, now_ms: u64)
    requires
        w.wf(),
        w.started,
        w.spec_step(WorkerEvent::TickDue { now_ms }).1 is StartCheck,
    ensures
        now_ms >= w.last_start_ms + w.config.test.interval_ms,
        w.spec_step(WorkerEvent::TickDue { now_ms }).0.last_start_ms == now_ms,
{
}

/// Once shutdown has been observed, no event ever starts another check:
/// from `Stopping` the worker only records the in-flight completion and
/// stops, and `Stopped` is terminal.
pub proof fn lemma_no_start_after_shutdown(w: WorkerState, event: WorkerEvent)
    requires
        w.wf(),
        w.event_fits(event),
        w.phase == WorkerPhase::Stopping || w.phase == WorkerPhase::Stopped,
    ensures
        !(w.spec_step(event).1 is StartCheck),
        w.spec_step(event).0.phase == WorkerPhase::Stopping || w.spec_step(event).0.phase
            == WorkerPhase::Stopped,
        w.phase == WorkerPhase::Stopped ==> w.spec_step(event).0.phase == WorkerPhase::Stopped,
        w.phase == WorkerPhase::Stopping && (event is CheckCompleted) ==> w.spec_step(
            event,
        ).0.phase == WorkerPhase::Stopped,
{
}

/// The state after driving `w` through `events`, first event first.
pub open spec fn run_steps(w: WorkerState, events: Seq<WorkerEvent>) -> WorkerState
    decreases events.len(),
{
    if events.len() == 0 {
        w
    } else {
        run_steps(w.spec_step(events[0]).0, events.drop_first())
    }
}

/// Every event of the run fits the phase the worker is in when it arrives.
pub open spec fn events_fit(w: WorkerState, events: Seq<WorkerEvent>) -> bool
    decreases events.len(),
{
    events.len() == 0 || (w.event_fits(events[0]) && events_fit(
        w.spec_step(events[0]).0,
        events.drop_first(),
    ))
}

/// The timestamps at which checks actually start along a run, in order.
pub open spec fn start_times(w: WorkerState, events: Seq<WorkerEvent>) -> Seq<u64>
    decreases events.len(),
{
    if events.len() == 0 {
        Seq::empty()
    } else {
        let rest = start_times(w.spec_step(events[0]).0, events.drop_first());
        if w.spec_step(events[0]).1 is StartCheck {
            match events[0] {
                WorkerEvent::TickDue { now_ms } => seq![now_ms] + rest,
                _ => rest,
            }
        } else {
            rest
        }
    }
}

/// Adjacent entries are at least `interval_ms` apart.
pub open spec fn spaced(starts: Seq<u64>, interval_ms: u64) -> bool {
    forall|k: int| 0 <= k && k + 1 < starts.len() ==> starts[k] + interval_ms <= #[trigger] starts[
        k + 1
    ]
}

/// One step keeps the scheduling invariant and never touches the monitor's
/// configuration.
pub proof fn lemma_spec_step_wf(w: WorkerState, event: WorkerEvent)
    requires
        w.wf(),
        w.event_fits(event),
    ensures
        w.spec_step(event).0.wf(),
        w.spec_step(event).0.config == w.config,
{
}

/// Fixed-delay scheduling over a whole run: for any sequence of events that
/// fits, consecutive check start timestamps differ by at least the
/// monitor's interval; and if a check had already started before the run,
/// the first start of the run lies at least one interval after it.
pub proof fn lemma_run_starts_spaced(w: WorkerState, events: Seq<WorkerEvent>)
    requires
        w.wf(),
        events_fit(w, events),
    ensures
        spaced(start_times(w, events), w.config.test.interval_ms),
        w.started && start_times(w, events).len() > 0 ==> w.last_start_ms
            + w.config.test.interval_ms <= start_times(w, events)[0],
    decreases events.len(),
{
    if events.len() > 0 {
        let w2 = w.spec_step(events[0]).0;
        let rest = start_times(w2, events.drop_first());
        lemma_spec_step_wf(w, events[0]);
        lemma_run_starts_spaced(w2, events.drop_first());
        if w.spec_step(events[0]).1 is StartCheck {
            let now_ms = events[0]->TickDue_now_ms;
            let starts = start_times(w, events);
            assert(starts =~= seq![now_ms] + rest);
            assert(w2.started && w2.last_start_ms == now_ms);
            assert(w2.config == w.config);
            assert forall|k: int| 0 <= k && k + 1 < starts.len() implies starts[k]
                + w.config.test.interval_ms <= #[trigger] starts[k + 1] by {
                if k == 0 {
                    assert(rest.len() > 0);
                    assert(w2.last_start_ms + w2.config.test.interval_ms <= rest[0]);
                    assert(starts[0] == now_ms);
                    assert(starts[1] == rest[0]);
                } else {
                    let k2 = k - 1;
                    assert(0 <= k2 && k2 + 1 < rest.len());
                    assert(rest[k2] + w2.config.test.interval_ms <= rest[k2 + 1]);
                    assert(starts[k] == rest[k2]);
                    assert(starts[k + 1] == rest[k2 + 1]);
                }
            }
        } else {
            assert(w2.started == w.started && w2.last_start_ms == w.last_start_ms);
        }
    }
}

/// A shutdown observed mid-check does not interrupt the check: the worker
/// moves to `Stopping`, the driver is told to wait for the in-flight check,
/// and only its completion moves the worker to `Stopped`.
pub proof fn lemma_shutdown_waits_for_check(w: WorkerState, completed_at_ms: u64)
    requires
        w.wf(),
        w.phase == WorkerPhase::Running,
        w.event_fits(WorkerEvent::CheckCompleted { completed_at_ms }),
    ensures
        w.spec_step(WorkerEvent::ShutdownRequested).0.phase == WorkerPhase::Stopping,
        w.spec_step(WorkerEvent::ShutdownRequested).1 is AwaitCompletion,
        w.spec_step(WorkerEvent::ShutdownRequested).0.spec_step(
            WorkerEvent::CheckCompleted { completed_at_ms },
        ).0.phase == WorkerPhase::Stopped,
{
}

} // verus!

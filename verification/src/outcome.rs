//! Raw result of one execution attempt of a monitor's check command.
//!
//! The executor that actually spawns the child process lives outside the
//! core; it reports back through exactly one of the three constructors
//! below, so every outcome the core sees is well formed.

use vstd::prelude::*;

verus! {

/// Exit code recorded when the check ran past its timeout and was killed.
pub const TIMEOUT_EXIT_CODE: i64 = -1;

/// Exit code recorded when the check command could not be spawned at all.
pub const SPAWN_FAILURE_EXIT_CODE: i64 = -2;

/// The raw result of one execution attempt, before classification.
///
/// Exactly one of three shapes holds: a normal exit (non-negative code),
/// a timeout, or a spawn failure; the failure shapes carry sentinel codes.
/// `detail` carries the operating system's error text for a spawn failure
/// and is empty otherwise.
pub struct RawOutcome {
    pub exit_code: i64,
    pub timed_out: bool,
    pub spawn_failed: bool,
    pub started_at_ms: u64,
    pub duration_ms: u64,
    pub detail: String,
}

impl RawOutcome {
    /// Exactly one of normal exit, timeout and spawn failure, with the
    /// matching sentinel code.
    pub open spec fn wf(self) -> bool {
        &&& self.timed_out ==> !self.spawn_failed && self.exit_code == TIMEOUT_EXIT_CODE
        &&& self.spawn_failed ==> !self.timed_out && self.exit_code == SPAWN_FAILURE_EXIT_CODE
        &&& !self.timed_out && !self.spawn_failed ==> self.exit_code >= 0
    }

    /// The check ran to completion and exited with `exit_code`.
    pub fn exited(exit_code: i64, started_at_ms: u64, duration_ms: u64) -> (r: RawOutcome)
        requires
            exit_code >= 0,
        ensures
            r.exit_code == exit_code,
            !r.timed_out,
            !r.spawn_failed,
            r.started_at_ms == started_at_ms,
            r.duration_ms == duration_ms,
            r.detail@ == Seq::<char>::empty(),
            r.wf(),
    {
        RawOutcome {
            exit_code,
            timed_out: false,
            spawn_failed: false,
            started_at_ms,
            duration_ms,
            detail: String::new(),
        }
    }

    /// The check ran past its deadline and was forcibly terminated; its
    /// duration is pinned to the configured timeout.
    pub fn after_timeout(started_at_ms: u64, timeout_ms: u64) -> (r: RawOutcome)
        ensures
            r.exit_code == TIMEOUT_EXIT_CODE,
            r.timed_out,
            !r.spawn_failed,
            r.started_at_ms == started_at_ms,
            r.duration_ms == timeout_ms,
            r.detail@ == Seq::<char>::empty(),
            r.wf(),
    {
        RawOutcome {
            exit_code: TIMEOUT_EXIT_CODE,
            timed_out: true,
            spawn_failed: false,
            started_at_ms,
            duration_ms: timeout_ms,
            detail: String::new(),
        }
    }

    /// The command could not be spawned (missing binary, permission denied,
    /// or the operating system refusing resources); `detail` carries the
    /// error text. Nothing ran, so the duration is zero.
    pub fn after_spawn_failure(started_at_ms: u64, detail: String) -> (r: RawOutcome)
        ensures
            r.exit_code == SPAWN_FAILURE_EXIT_CODE,
            !r.timed_out,
            r.spawn_failed,
            r.started_at_ms == started_at_ms,
            r.duration_ms == 0,
            r.detail == detail,
            r.wf(),
    {
        RawOutcome {
            exit_code: SPAWN_FAILURE_EXIT_CODE,
            timed_out: false,
            spawn_failed: true,
            started_at_ms,
            duration_ms: 0,
            detail,
        }
    }
}

} // verus!

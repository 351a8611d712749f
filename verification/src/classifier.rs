//! Pure classification of a raw outcome into a tri-state status.
//!
//! The decision policy: exit code 0 is Green; a timeout or a spawn failure
//! is Red; any other exit code is Red, except one configurable "warning"
//! exit code that maps to Yellow. Exit-code semantics are monitor-defined,
//! so the warning code is a parameter; `DEFAULT_WARNING_EXIT_CODE` is the
//! convention used when nothing else is configured. Code 0 is always Green,
//! whatever the warning code is set to.

use vstd::prelude::*;
use vstd::string::StringExecFns;

use crate::config::{copy_string_pairs, CssMetadataConfig};
use crate::outcome::{RawOutcome, SPAWN_FAILURE_EXIT_CODE, TIMEOUT_EXIT_CODE};
use crate::status::{MonitorStatus, StatusState};

verus! {

/// By convention, exit code 1 maps to Yellow unless configured otherwise.
pub const DEFAULT_WARNING_EXIT_CODE: i64 = 1;

/// The tri-state health that a raw outcome classifies to.
pub open spec fn spec_classify_state(o: RawOutcome, warning_code: i64) -> StatusState {
    if o.timed_out || o.spawn_failed {
        StatusState::Red
    } else if o.exit_code == 0 {
        StatusState::Green
    } else if o.exit_code == warning_code {
        StatusState::Yellow
    } else {
        StatusState::Red
    }
}

/// The description text generated for a raw outcome.
pub open spec fn spec_description(o: RawOutcome) -> Seq<char> {
    if o.spawn_failed {
        "check could not be started: "@ + o.detail@
    } else if o.timed_out {
        "check timed out"@
    } else if o.exit_code == 0 {
        "check passed"@
    } else {
        "check exited with a nonzero code"@
    }
}

/// The metadata table configured for a given state.
pub open spec fn spec_metadata_for(state: StatusState, css: CssMetadataConfig) -> Seq<
    (String, String),
> {
    match state {
        StatusState::Green => css.green@,
        StatusState::Yellow => css.yellow@,
        StatusState::Red => css.red@,
    }
}

/// `r` is the classification of outcome `o` under metadata table `css` and
/// the given warning exit code: every field of `r` is a function of those
/// inputs alone.
pub open spec fn is_classification_of(
    o: RawOutcome,
    css: CssMetadataConfig,
    warning_code: i64,
    r: MonitorStatus,
) -> bool {
    &&& r.status == spec_classify_state(o, warning_code)
    &&& r.code == o.exit_code
    &&& r.description@ == spec_description(o)
    &&& r.metadata@ == spec_metadata_for(spec_classify_state(o, warning_code), css)
}

/// Maps a raw outcome to a classified status. Pure and deterministic:
/// every field of the result is pinned to a function of the arguments.
pub fn classify(o: &RawOutcome, css: &CssMetadataConfig, warning_code: i64) -> (r: MonitorStatus)
    ensures
        is_classification_of(*o, *css, warning_code, r),
{
    let state = if o.timed_out || o.spawn_failed {
        StatusState::Red
    } else if o.exit_code == 0 {
        StatusState::Green
    } else if o.exit_code == warning_code {
        StatusState::Yellow
    } else {
        StatusState::Red
    };
    let description = if o.spawn_failed {
        "check could not be started: ".to_owned().concat(o.detail.as_str())
    } else if o.timed_out {
        "check timed out".to_owned()
    } else if o.exit_code == 0 {
        "check passed".to_owned()
    } else {
        "check exited with a nonzero code".to_owned()
    };
    let metadata = match state {
        StatusState::Green => copy_string_pairs(&css.green),
        StatusState::Yellow => copy_string_pairs(&css.yellow),
        StatusState::Red => copy_string_pairs(&css.red),
    };
    MonitorStatus { status: state, metadata, code: o.exit_code, description }
}

/// Classification is pure: two statuses classified from the same outcome,
/// metadata table and warning code agree in every observable field.
pub proof fn lemma_classification_pure(
    o: RawOutcome,
    css: CssMetadataConfig,
    warning_code: i64,
    r1: MonitorStatus,
    r2: MonitorStatus,
)
    requires
        is_classification_of(o, css, warning_code, r1),
        is_classification_of(o, css, warning_code, r2),
    ensures
        r1.equiv(r2),
{
}

/// A timed-out outcome always classifies Red and carries the timeout
/// sentinel exit code.
pub proof fn lemma_timeout_is_red(o: RawOutcome, warning_code: i64)
    requires
        o.wf(),
        o.timed_out,
    ensures
        spec_classify_state(o, warning_code) == StatusState::Red,
        o.exit_code == TIMEOUT_EXIT_CODE,
{
}

/// A spawn failure always classifies Red, carries its own sentinel exit
/// code, and its description is distinct from the timeout description.
pub proof fn lemma_spawn_failure_distinct(o1: RawOutcome, o2: RawOutcome, warning_code: i64)
    requires
        o1.wf(),
        o1.spawn_failed,
        o2.wf(),
        o2.timed_out,
    ensures
        spec_classify_state(o1, warning_code) == StatusState::Red,
        o1.exit_code == SPAWN_FAILURE_EXIT_CODE,
        spec_description(o1) != spec_description(o2),
{
    reveal_strlit("check could not be started: ");
    reveal_strlit("check timed out");
    assert(spec_description(o1).len() >= 28);
    assert(spec_description(o2).len() == 15);
}

} // verus!

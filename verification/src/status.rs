//! Classified health of a monitor at a point in time, and the per-monitor
//! aggregate state the dashboard tracks.

use vstd::prelude::*;

use crate::classifier::{classify, is_classification_of};
use crate::config::{Config, CssMetadataConfig, MonitorDirConfig};
use crate::history::{push_spec, History};
use crate::outcome::RawOutcome;

verus! {

/// Tri-state health of a monitor.
#[derive(Clone, Copy, Debug, PartialEq, Eq, Structural)]
pub enum StatusState {
    Green,
    Yellow,
    Red,
}

/// The classified status of one monitor after one check: the tri-state
/// health, the raw exit code it mirrors, a human-readable description of
/// the outcome, and the presentation metadata selected for the state.
pub struct MonitorStatus {
    pub status: StatusState,
    pub metadata: Vec<(String, String)>,
    pub code: i64,
    pub description: String,
}

impl MonitorStatus {
    /// Two statuses agree in every observable field.
    pub open spec fn equiv(self, other: MonitorStatus) -> bool {
        &&& self.status == other.status
        &&& self.code == other.code
        &&& self.description@ == other.description@
        &&& self.metadata@ == other.metadata@
    }

    /// A full copy: the copy agrees with the original in every field.
    pub fn duplicate(&self) -> (r: MonitorStatus)
        ensures
            self.equiv(r),
    {
        MonitorStatus {
            status: self.status,
            metadata: crate::config::copy_string_pairs(&self.metadata),
            code: self.code,
            description: self.description.clone(),
        }
    }
}

/// Entry-by-entry agreement of two status sequences, in order.
pub open spec fn status_seq_equiv(a: Seq<MonitorStatus>, b: Seq<MonitorStatus>) -> bool {
    &&& a.len() == b.len()
    &&& forall|i: int| 0 <= i < a.len() ==> #[trigger] a[i].equiv(b[i])
}

/// Everything the dashboard tracks for one monitor: its immutable
/// configuration, its current status, and its bounded history.
///
/// Exactly one worker ever writes a `MonitorState`; readers copy it whole
/// (`duplicate`) under the same per-monitor lock, held outside the core,
/// so a reader sees the state either before or after a full per-tick
/// update, never a torn value.
pub struct MonitorState {
    pub config: MonitorDirConfig,
    pub status: MonitorStatus,
    pub history: History,
}

impl MonitorState {
    pub open spec fn wf(&self) -> bool {
        self.config.wf() && self.history.wf()
    }

    /// No torn value: once a check has been recorded, the current status
    /// and the newest history entry agree. Every operation of this type
    /// updates the two together, so a state where one was written without
    /// the other cannot arise.
    pub open spec fn consistent(&self) -> bool {
        self.history@.len() > 0 ==> self.history@.last().equiv(self.status)
    }

    /// Two states agree in configuration, current status, and history.
    pub open spec fn equiv(self, other: MonitorState) -> bool {
        &&& self.config == other.config
        &&& self.status.equiv(other.status)
        &&& status_seq_equiv(self.history@, other.history@)
        &&& self.history.cap() == other.history.cap()
    }

    /// A fresh state for a newly registered monitor: an empty history and
    /// a placeholder status (Yellow, code 0, the "blank" metadata table)
    /// shown until the first check completes.
    pub fn new(config: MonitorDirConfig, css: &CssMetadataConfig, history_capacity: usize) -> (r:
        MonitorState)
        requires
            config.wf(),
            0 < history_capacity,
        ensures
            r.config == config,
            r.history@ == Seq::<MonitorStatus>::empty(),
            r.history.cap() == history_capacity,
            r.status.status == StatusState::Yellow,
            r.status.code == 0,
            r.status.metadata@ == css.blank@,
            r.status.description@ == "no check has completed yet"@,
            r.wf(),
            r.consistent(),
    {
        MonitorState {
            config,
            status: MonitorStatus {
                status: StatusState::Yellow,
                metadata: crate::config::copy_string_pairs(&css.blank),
                code: 0,
                description: "no check has completed yet".to_owned(),
            },
            history: History::new(history_capacity),
        }
    }

    /// Records one completed check: classifies the outcome, makes the
    /// result the current status, and appends it to the history. The whole
    /// per-tick write happens in this one call, so a reader that copies the
    /// state under the monitor's lock sees it either before or after the
    /// full update.
    pub fn apply_completion(&mut self, o: &RawOutcome, css: &CssMetadataConfig, warning_code: i64)
        requires
            old(self).wf(),
        ensures
            final(self).config == old(self).config,
            is_classification_of(*o, *css, warning_code, final(self).status),
            final(self).history@.len() > 0,
            is_classification_of(*o, *css, warning_code, final(self).history@.last()),
            final(self).history@ == push_spec(
                old(self).history@,
                old(self).history.cap(),
                final(self).history@.last(),
            ),
            final(self).history.cap() == old(self).history.cap(),
            final(self).wf(),
            final(self).consistent(),
    {
        let status = classify(o, css, warning_code);
        let current = status.duplicate();
        self.history.push(status);
        self.status = current;
    }

    /// A full copy: the copy agrees with the original in every field, and a
    /// copy of an untorn state is untorn.
    pub fn duplicate(&self) -> (r: MonitorState)
        ensures
            self.equiv(r),
            self.wf() ==> r.wf(),
            self.consistent() ==> r.consistent(),
    {
        let r = MonitorState {
            config: self.config.duplicate(),
            status: self.status.duplicate(),
            history: self.history.duplicate(),
        };
        proof {
            if self.consistent() && r.history@.len() > 0 {
                let last = r.history@.len() - 1;
                assert(self.history@[last].equiv(r.history@[last]));
                assert(self.history@.last().equiv(self.status));
            }
        }
        r
    }
}

/// Entry-by-entry agreement of two monitor-state sequences, in order.
pub open spec fn monitor_seq_equiv(a: Seq<MonitorState>, b: Seq<MonitorState>) -> bool {
    &&& a.len() == b.len()
    &&& forall|i: int| 0 <= i < a.len() ==> #[trigger] a[i].equiv(b[i])
}

/// A consistent snapshot of the whole dashboard: the global configuration
/// and every monitor's state, in registration order.
pub struct Status {
    pub config: Config,
    pub monitors: Vec<MonitorState>,
}

} // verus!

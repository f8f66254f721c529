//! Loading-phase data: the asset handle collection, the progress counter
//! snapshot, and the per-frame progress reporter.

use vstd::prelude::*;

verus! {

/// The handle collection for the one externally loaded scene asset, held
/// as the plain identifier the host assigned to it.
#[derive(Clone, Copy, PartialEq, Eq, Structural, Debug)]
pub struct WorldProps {
    /// Identifier of the loaded wooden-crate scene asset.
    pub wood_crate: u64,
}

/// One snapshot of the loading counter: `done` of `total` tracked tasks
/// have finished.
#[derive(Clone, Copy, PartialEq, Eq, Structural, Debug)]
pub struct Progress {
    /// How many tracked loading tasks have finished.
    pub done: u32,
    /// How many tasks are tracked in all.
    pub total: u32,
}

/// One diagnostic line: the frame it was emitted on and the counter
/// snapshot it reports.
#[derive(Clone, Copy, PartialEq, Eq, Structural, Debug)]
pub struct ProgressRecord {
    /// The frame count at the time of the observation.
    pub frame: u64,
    /// The counter snapshot being reported.
    pub progress: Progress,
}

/// The loading diagnostics: remembers the last `done` count it reported
/// and emits a record only when that count strictly grows.
#[derive(Clone, Copy, PartialEq, Eq, Structural, Debug)]
pub struct ProgressReporter {
    /// The `done` count of the last emitted record; zero before any.
    pub last_done: u32,
}

impl ProgressReporter {
    /// Whether an observation of `progress` emits a record: only a present
    /// counter whose `done` count strictly exceeds the last reported one.
    pub open spec fn spec_emits(self, progress: Option<Progress>) -> bool {
        progress is Some && progress.unwrap().done > self.last_done
    }

    /// A fresh reporter, as at process start: nothing reported yet.
    pub fn new() -> (r: Self)
        ensures
            r.last_done == 0,
    {
        ProgressReporter { last_done: 0 }
    }

    /// One frame's observation of the counter. At most one record comes
    /// out, and only when `done` strictly increased since the last emitted
    /// record; an absent or unchanged reading emits nothing and leaves the
    /// reporter as it was.
    pub fn observe(&mut self, progress: Option<Progress>, frame: u64) -> (r: Option<ProgressRecord>)
        ensures
            r is Some <==> old(self).spec_emits(progress),
            old(self).spec_emits(progress) ==> {
                &&& r == Some(ProgressRecord { frame, progress: progress.unwrap() })
                &&& final(self).last_done == progress.unwrap().done
            },
            !old(self).spec_emits(progress) ==> *final(self) == *old(self),
    {
        match progress {
            Some(p) => {
                if p.done > self.last_done {
                    self.last_done = p.done;
                    Some(ProgressRecord { frame, progress: p })
                } else {
                    None
                }
            },
            None => None,
        }
    }

    /// Reporting is idempotent on repeated equal readings: once a reporter
    /// has absorbed an observation of `p` — whether it emitted (and now
    /// remembers `p.done`) or stayed unchanged — observing `p` again emits
    /// nothing.
    pub proof fn lemma_repeat_not_emitted(before: ProgressReporter, after: ProgressReporter, p: Progress)
        requires
            after.last_done == if before.spec_emits(Some(p)) {
                p.done
            } else {
                before.last_done
            },
        ensures
            !after.spec_emits(Some(p)),
    {
    }
}

} // verus!

//! Time-gated forwarding of download progress.
use vstd::prelude::*;

verus! {

/// Least time, in milliseconds, between two forwarded progress reports.
pub const PROGRESS_INTERVAL_MS: u64 = 300;

/// One forwarded progress report.
#[derive(Clone, Debug, PartialEq, Eq)]
pub struct ProgressData {
    pub source: String,
    pub transferred: usize,
    pub total: usize,
}

/// Forwards a progress tick only when at least `PROGRESS_INTERVAL_MS` have
/// passed since the last forwarded one; the first tick always goes through.
/// A completing tick is not treated specially: inside the window it is
/// dropped like any other.
pub struct ProgressThrottle {
    last_emit: Option<u64>,
}

/// Whether a tick at `now` is forwarded after the last forwarded one at `last`.
pub open spec fn is_due(last: Option<u64>, now: u64) -> bool {
    match last {
        None => true,
        Some(t) => t <= now && now - t >= PROGRESS_INTERVAL_MS,
    }
}

impl ProgressThrottle {
    /// When the last tick was forwarded, if any was.
    pub closed spec fn last_emitted(&self) -> Option<u64> {
        self.last_emit
    }

    /// A throttle that has forwarded nothing yet.
    pub fn new() -> (r: ProgressThrottle)
        ensures
            r.last_emitted() is None,
    {
        ProgressThrottle { last_emit: None }
    }

    /// Handles a tick at time `now` (milliseconds on a monotonic clock):
    /// returns the report to forward, or `None` when the tick is dropped.
    pub fn tick(&mut self, now: u64, source: &str, transferred: usize, total: usize) -> (r: Option<
        ProgressData,
    >)
        ensures
            is_due(old(self).last_emitted(), now) ==> {
                &&& r matches Some(d) && d.source@ == source@ && d.transferred == transferred
                    && d.total == total
                &&& final(self).last_emitted() == Some(now)
            },
            !is_due(old(self).last_emitted(), now) ==> r is None && final(self).last_emitted()
                == old(self).last_emitted(),
    {
        let due = match self.last_emit {
            None => true,
            Some(t) => t <= now && now - t >= PROGRESS_INTERVAL_MS,
        };
        if due {
            self.last_emit = Some(now);
            Some(ProgressData { source: source.to_owned(), transferred, total })
        } else {
            None
        }
    }
}

} // verus!

//! Mirroring the assigned version onto the per-project marker files.
use vstd::prelude::*;

verus! {

/// Status of a marker write that happened.
pub const STATUS_WRITTEN: i32 = 200;

/// Status when the project directory is gone and nothing was written.
pub const STATUS_MISSING: i32 = 404;

/// Most marker writes a batch keeps in flight at once.
pub const BATCH_LIMIT: usize = 3;

/// The status of a single marker sync: a write happens exactly when the
/// project directory exists.
pub fn sync_status(dir_exists: bool) -> (r: i32)
    ensures
        r == if dir_exists {
            STATUS_WRITTEN
        } else {
            STATUS_MISSING
        },
{
    if dir_exists {
        STATUS_WRITTEN
    } else {
        STATUS_MISSING
    }
}

/// Admission control for a batch of marker writes, one per path, with at
/// most `BATCH_LIMIT` in flight. Paths are started in order; the first write
/// to fail, in order of completion, is what the batch reports.
pub struct BatchSync {
    total: usize,
    next: usize,
    running: usize,
    done: usize,
    failed: Option<usize>,
}

impl BatchSync {
    /// Number of paths in the batch.
    pub closed spec fn total(&self) -> nat {
        self.total as nat
    }

    /// Number of writes started so far; they are the first paths.
    pub closed spec fn started(&self) -> nat {
        self.next as nat
    }

    /// Number of writes in flight.
    pub closed spec fn running(&self) -> nat {
        self.running as nat
    }

    /// Number of writes that have completed.
    pub closed spec fn completed(&self) -> nat {
        self.done as nat
    }

    /// The first failure reported, by path index.
    pub closed spec fn first_failure(&self) -> Option<usize> {
        self.failed
    }

    /// Every write started is either in flight or completed, and no more
    /// than `BATCH_LIMIT` are in flight.
    pub open spec fn wf(&self) -> bool {
        &&& self.started() <= self.total()
        &&& self.running() <= BATCH_LIMIT
        &&& self.completed() + self.running() == self.started()
    }

    /// `self` follows `prev` by one write started or one write completed
    /// successfully.
    pub open spec fn succeeds_from(&self, prev: &Self) -> bool {
        &&& self.wf()
        &&& self.total() == prev.total()
        &&& self.first_failure() == prev.first_failure()
        &&& {
            ||| self.started() == prev.started() + 1 && self.running() == prev.running() + 1
                && self.completed() == prev.completed()
            ||| self.started() == prev.started() && self.running() + 1 == prev.running()
                && self.completed() == prev.completed() + 1
        }
    }

    /// A batch over `total` paths, none started.
    pub fn new(total: usize) -> (r: BatchSync)
        ensures
            r.wf(),
            r.total() == total,
            r.started() == 0,
            r.running() == 0,
            r.completed() == 0,
            r.first_failure() is None,
    {
        BatchSync { total, next: 0, running: 0, done: 0, failed: None }
    }

    /// The index of the next path to start writing, when a slot is free and
    /// a path is left; `None` otherwise.
    pub fn next_path(&mut self) -> (r: Option<usize>)
        requires
            old(self).wf(),
        ensures
            final(self).wf(),
            final(self).total() == old(self).total(),
            final(self).completed() == old(self).completed(),
            final(self).first_failure() == old(self).first_failure(),
            r is Some <==> old(self).running() < BATCH_LIMIT && old(self).started() < old(
                self,
            ).total(),
            match r {
                Some(i) => {
                    &&& final(self).succeeds_from(old(self))
                    &&& i == old(self).started()
                    &&& final(self).started() == old(self).started() + 1
                    &&& final(self).running() == old(self).running() + 1
                },
                None => final(self).started() == old(self).started() && final(self).running()
                    == old(self).running(),
            },
    {
        if self.running < BATCH_LIMIT && self.next < self.total {
            let i = self.next;
            self.next = self.next + 1;
            self.running = self.running + 1;
            Some(i)
        } else {
            None
        }
    }

    /// Records that the write of path `index` completed, and whether it
    /// succeeded.
    pub fn complete(&mut self, index: usize, ok: bool)
        requires
            old(self).wf(),
            old(self).running() > 0,
        ensures
            final(self).wf(),
            final(self).total() == old(self).total(),
            final(self).started() == old(self).started(),
            final(self).running() + 1 == old(self).running(),
            final(self).completed() == old(self).completed() + 1,
            ok ==> final(self).succeeds_from(old(self)),
            final(self).first_failure() == if old(self).first_failure() is None && !ok {
                Some(index)
            } else {
                old(self).first_failure()
            },
    {
        self.running = self.running - 1;
        self.done = self.done + 1;
        if self.failed.is_none() && !ok {
            self.failed = Some(index);
        }
    }

    /// Whether every path has been written and every write has completed.
    pub fn is_finished(&self) -> (r: bool)
        requires
            self.wf(),
        ensures
            r == (self.completed() == self.total()),
            r ==> self.started() == self.total() && self.running() == 0,
    {
        self.done == self.total
    }

    /// The batch's result: the index of the first failed write, if any.
    pub fn outcome(&self) -> (r: Result<(), usize>)
        ensures
            match r {
                Ok(()) => self.first_failure() is None,
                Err(i) => self.first_failure() == Some(i),
            },
    {
        match self.failed {
            Some(i) => Err(i),
            None => Ok(()),
        }
    }
}

/// A batch in which every write succeeds: through any interleaving of starts
/// and completions, no more than `BATCH_LIMIT` writes are ever in flight, no
/// failure is recorded, and once every write has completed every path was
/// started and none is left running.
pub proof fn lemma_successful_batch(states: Seq<BatchSync>)
    requires
        states.len() > 0,
        states[0].wf(),
        states[0].started() == 0,
        states[0].completed() == 0,
        states[0].first_failure() is None,
        forall|i: int| 0 <= i < states.len() - 1 ==> #[trigger] states[i + 1].succeeds_from(&states[i]),
    ensures
        forall|i: int|
            0 <= i < states.len() ==> {
                &&& (#[trigger] states[i]).wf()
                &&& states[i].running() <= BATCH_LIMIT
                &&& states[i].first_failure() is None
                &&& states[i].total() == states[0].total()
            },
        states.last().completed() == states.last().total() ==> {
            &&& states.last().started() == states.last().total()
            &&& states.last().running() == 0
        },
    decreases states.len(),
{
    if states.len() > 1 {
        let shorter = states.drop_last();
        assert forall|i: int| 0 <= i < shorter.len() - 1 implies #[trigger] shorter[i
            + 1].succeeds_from(&shorter[i]) by {
            assert(states[i + 1].succeeds_from(&states[i]));
        }
        lemma_successful_batch(shorter);
        let k = states.len() - 2;
        assert(states[k + 1].succeeds_from(&states[k]));
        assert(shorter[k] == states[k]);
        assert forall|i: int| 0 <= i < states.len() implies {
            &&& (#[trigger] states[i]).wf()
            &&& states[i].running() <= BATCH_LIMIT
            &&& states[i].first_failure() is None
            &&& states[i].total() == states[0].total()
        } by {
            if i < states.len() - 1 {
                assert(shorter[i] == states[i]);
            }
        }
    }
}

} // verus!

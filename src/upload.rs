//! The batch upsert engine: a state machine that says which contiguous slice
//! of the dataset to send next, and what to report when a send completes.
//! The caller performs each upsert and hands back whether it succeeded.

use vstd::prelude::*;
use crate::batching::{
    batch_count, batch_len, batch_start, batch_total, lemma_batches_cover, lemma_total_bounds,
    sizes_sum,
};
use crate::errors::PipelineError;

verus! {

/// Emitted once for every batch whose upsert succeeded.
#[derive(Debug, Clone, Copy, PartialEq, Eq, Structural)]
pub struct ProgressEvent {
    /// 1-based index of the batch.
    pub batch: usize,
    /// Number of batches in the run.
    pub total: usize,
    /// Number of points in this batch.
    pub points: usize,
}

/// What the caller has to do next.
#[derive(Debug, Clone, Copy, PartialEq, Eq, Structural)]
pub enum Step {
    /// Upsert the points at positions `start..end` as batch `batch` (1-based).
    Upsert { batch: usize, start: usize, end: usize },
    /// Every batch went through: signal completion with the point count.
    Done { total_points: usize },
    /// The upsert of batch `batch` failed: nothing more is sent or reported.
    Halted { batch: usize },
}

/// The progress event owed for batch `i` (1-based) of `n` points in batches of `b`.
pub open spec fn progress_event(n: nat, b: nat, i: nat) -> ProgressEvent {
    ProgressEvent {
        batch: i as usize,
        total: batch_total(n, b) as usize,
        points: batch_len(n, b, i) as usize,
    }
}

/// The events of the first `k` successful batches, in order.
pub open spec fn progress_events(n: nat, b: nat, k: nat) -> Seq<ProgressEvent> {
    Seq::new(k, |j: int| progress_event(n, b, (j + 1) as nat))
}

/// Sum of the point counts that the events report.
pub open spec fn reported_points(s: Seq<ProgressEvent>) -> nat
    decreases s.len(),
{
    if s.len() == 0 {
        0
    } else {
        reported_points(s.drop_last()) + s.last().points as nat
    }
}

/// State of one run over `total_points` points in batches of `batch_size`.
pub struct UploadRun {
    total_points: usize,
    batch_size: usize,
    total_batches: usize,
    completed: usize,
    failed_batch: Option<usize>,
}

impl UploadRun {
    pub closed spec fn points(&self) -> nat {
        self.total_points as nat
    }

    pub closed spec fn size(&self) -> nat {
        self.batch_size as nat
    }

    /// Number of batches whose upsert succeeded so far.
    pub closed spec fn done_batches(&self) -> nat {
        self.completed as nat
    }

    /// The batch whose upsert failed, if one did.
    pub closed spec fn failure(&self) -> Option<usize> {
        self.failed_batch
    }

    pub closed spec fn wf(&self) -> bool {
        &&& self.batch_size > 0
        &&& self.total_batches as nat == batch_total(self.total_points as nat, self.batch_size as nat)
        &&& self.completed <= self.total_batches
        &&& self.failed_batch matches Some(k) ==> k == self.completed + 1 && k <= self.total_batches
    }

    /// Number of batches in the run.
    pub open spec fn batches(&self) -> nat {
        batch_total(self.points(), self.size())
    }

    /// The progress events emitted so far.
    pub open spec fn events(&self) -> Seq<ProgressEvent> {
        progress_events(self.points(), self.size(), self.done_batches())
    }

    /// The step owed in this state.
    pub open spec fn spec_next_step(&self) -> Step {
        if let Some(k) = self.failure() {
            Step::Halted { batch: k }
        } else if self.done_batches() < self.batches() {
            let i = self.done_batches() + 1;
            Step::Upsert {
                batch: i as usize,
                start: batch_start(self.size(), i) as usize,
                end: (batch_start(self.size(), i) + batch_len(self.points(), self.size(), i)) as usize,
            }
        } else {
            Step::Done { total_points: self.points() as usize }
        }
    }

    /// Starts a run; a batch size of zero is refused.
    pub fn new(total_points: usize, batch_size: usize) -> (r: Result<UploadRun, PipelineError>)
        ensures
            batch_size == 0 <==> r is Err,
            r matches Err(e) ==> e == PipelineError::ZeroBatchSize,
            r matches Ok(run) ==> {
                &&& run.wf()
                &&& run.points() == total_points
                &&& run.size() == batch_size
                &&& run.done_batches() == 0
                &&& run.failure() is None
            },
    {
        if batch_size == 0 {
            return Err(PipelineError::ZeroBatchSize);
        }
        let total_batches = batch_count(total_points, batch_size);
        Ok(UploadRun { total_points, batch_size, total_batches, completed: 0, failed_batch: None })
    }

    /// Number of batches in the run: `ceil(total_points / batch_size)`.
    pub fn total_batches(&self) -> (r: usize)
        requires
            self.wf(),
        ensures
            r == self.batches(),
    {
        self.total_batches
    }

    /// Number of batches sent successfully so far.
    pub fn completed(&self) -> (r: usize)
        ensures
            r == self.done_batches(),
    {
        self.completed
    }

    /// Says what to do next: send a batch, signal completion, or stop.
    pub fn next_step(&self) -> (r: Step)
        requires
            self.wf(),
        ensures
            r == self.spec_next_step(),
    {
        if let Some(k) = self.failed_batch {
            return Step::Halted { batch: k };
        }
        if self.completed < self.total_batches {
            let ghost n = self.total_points as nat;
            let ghost b = self.batch_size as nat;
            let ghost i = (self.completed + 1) as nat;
            let ghost t = batch_total(n, b);
            proof {
                lemma_batches_cover(n, b);
                assert(self.completed * b <= (t - 1) * b) by (nonlinear_arith)
                    requires
                        self.completed <= t - 1,
                        b > 0,
                ;
                lemma_total_bounds(n, b);
                assert(batch_start(b, i) == self.completed * b);
            }
            let start: usize = self.completed * self.batch_size;
            let rest: usize = self.total_points - start;
            let end: usize = if rest < self.batch_size {
                self.total_points
            } else {
                start + self.batch_size
            };
            Step::Upsert { batch: self.completed + 1, start, end }
        } else {
            Step::Done { total_points: self.total_points }
        }
    }

    /// Records the outcome of the upsert that `next_step` asked for. On success
    /// the progress event of that batch is returned; on failure the run halts
    /// with an error that names the batch.
    pub fn record(&mut self, succeeded: bool) -> (r: Result<ProgressEvent, PipelineError>)
        requires
            old(self).wf(),
            old(self).spec_next_step() is Upsert,
        ensures
            final(self).wf(),
            final(self).points() == old(self).points(),
            final(self).size() == old(self).size(),
            succeeded ==> {
                &&& r == Ok::<ProgressEvent, PipelineError>(
                    progress_event(old(self).points(), old(self).size(), old(self).done_batches() + 1),
                )
                &&& final(self).done_batches() == old(self).done_batches() + 1
                &&& final(self).failure() is None
            },
            !succeeded ==> {
                &&& r == Err::<ProgressEvent, PipelineError>(
                    PipelineError::UpsertError { batch: (old(self).done_batches() + 1) as usize },
                )
                &&& final(self).done_batches() == old(self).done_batches()
                &&& final(self).failure() == Some((old(self).done_batches() + 1) as usize)
            },
    {
        let batch: usize = self.completed + 1;
        if !succeeded {
            self.failed_batch = Some(batch);
            return Err(PipelineError::UpsertError { batch });
        }
        let ghost n = self.total_points as nat;
        let ghost b = self.batch_size as nat;
        proof {
            lemma_batches_cover(n, b);
            lemma_total_bounds(n, b);
            assert(self.completed * b <= (self.total_batches - 1) * b) by (nonlinear_arith)
                requires
                    self.completed <= self.total_batches - 1,
                    b > 0,
            ;
            assert(batch_start(b, batch as nat) == self.completed * b);
        }
        let start: usize = self.completed * self.batch_size;
        let rest: usize = self.total_points - start;
        let points: usize = if rest < self.batch_size {
            rest
        } else {
            self.batch_size
        };
        self.completed = batch;
        Ok(ProgressEvent { batch, total: self.total_batches, points })
    }
}

/// The events reported over `k` successful batches add up to the points of those batches.
proof fn lemma_reported_prefix(n: nat, b: nat, k: nat)
    requires
        b > 0,
        n <= usize::MAX,
    ensures
        reported_points(progress_events(n, b, k)) == sizes_sum(n, b, k),
    decreases k,
{
    if k > 0 {
        let s = progress_events(n, b, k);
        assert(s.drop_last() =~= progress_events(n, b, (k - 1) as nat));
        lemma_reported_prefix(n, b, (k - 1) as nat);
    }
}

/// Progress events carry the batch indices `1, 2, ...` in that order, with no gap
/// or repeat, each with the run's batch count; once the run is done there is one
/// event per batch and their point counts add up to the points of the run.
pub proof fn lemma_progress_in_order(run: UploadRun)
    requires
        run.wf(),
    ensures
        run.events().len() <= run.batches(),
        forall|i: int|
            0 <= i < run.events().len() ==> #[trigger] run.events()[i].batch == i + 1
                && run.events()[i].total == run.batches(),
        forall|i: int, j: int|
            0 <= i < j < run.events().len() ==> run.events()[i].batch < run.events()[j].batch,
        run.spec_next_step() is Done ==> {
            &&& run.events().len() == run.batches()
            &&& reported_points(run.events()) == run.points()
        },
{
    let n = run.points();
    let b = run.size();
    lemma_batches_cover(n, b);
    if run.spec_next_step() is Done {
        lemma_reported_prefix(n, b, run.done_batches());
    }
}

/// Once the upsert of batch `k` has failed, the run only halts: no event for
/// batch `k` or a later one has been reported, and completion is never signalled.
pub proof fn lemma_failure_halts(run: UploadRun, k: usize)
    requires
        run.wf(),
        run.failure() == Some(k),
    ensures
        run.spec_next_step() == (Step::Halted { batch: k }),
        run.events().len() == k - 1,
        forall|i: int| 0 <= i < run.events().len() ==> #[trigger] run.events()[i].batch < k,
{
}

} // verus!

//! The batch orchestrator: runs each item through both cached stages,
//! records outcomes in the queue, and aggregates progress.
use crate::cache::CacheManager;
use crate::error::{message_of, severity_of, ErrorSeverity, PipelineError};
use crate::queue::{
    others_unchanged, resumable_rows, ProcessingStage, ProcessingStatus, QueueItem, QueueRepository,
};
use crate::vocabulary::{
    now_seconds, opt_view, stage1_key, stage2_key, Stage1Result, Stage2Result, VocabularyItem,
};
use vstd::prelude::*;

verus! {

/// Admission control for units of work: at most `capacity` slots are held
/// at once. `process_batch` takes one slot per item for the item's whole
/// run and starts no item without one.
pub struct ConcurrencyLimiter {
    pub capacity: usize,
    pub in_use: usize,
}

impl ConcurrencyLimiter {
    /// No more slots are held than there are.
    pub open spec fn wf(&self) -> bool {
        self.in_use <= self.capacity
    }

    /// A limiter with `capacity` free slots.
    pub fn new(capacity: usize) -> (r: Self)
        ensures
            r.wf(),
            r.capacity == capacity,
            r.in_use == 0,
    {
        ConcurrencyLimiter { capacity, in_use: 0 }
    }

    /// Takes a slot if one is free and says whether it did; a unit of work
    /// that gets `false` must not start.
    pub fn try_acquire(&mut self) -> (r: bool)
        requires
            old(self).wf(),
        ensures
            final(self).wf(),
            *final(self) == limiter_step(*old(self), true),
            r == (old(self).in_use < old(self).capacity),
    {
        if self.in_use < self.capacity {
            self.in_use = self.in_use + 1;
            true
        } else {
            false
        }
    }

    /// Gives back a slot.
    pub fn release(&mut self)
        requires
            old(self).wf(),
            old(self).in_use > 0,
        ensures
            final(self).wf(),
            *final(self) == limiter_step(*old(self), false),
            final(self).in_use == old(self).in_use - 1,
    {
        self.in_use = self.in_use - 1;
    }
}

/// The limiter after one request: an acquisition takes a slot if one is
/// free; a release gives one back if one is held.
pub open spec fn limiter_step(l: ConcurrencyLimiter, acquire: bool) -> ConcurrencyLimiter {
    if acquire {
        if l.in_use < l.capacity {
            ConcurrencyLimiter { in_use: (l.in_use + 1) as usize, ..l }
        } else {
            l
        }
    } else if l.in_use > 0 {
        ConcurrencyLimiter { in_use: (l.in_use - 1) as usize, ..l }
    } else {
        l
    }
}

/// The limiter after a sequence of requests (`true` to acquire, `false` to
/// release).
pub open spec fn limiter_run(l: ConcurrencyLimiter, ops: Seq<bool>) -> ConcurrencyLimiter
    decreases ops.len(),
{
    if ops.len() == 0 {
        l
    } else {
        limiter_step(limiter_run(l, ops.drop_last()), ops.last())
    }
}

/// However acquisitions and releases interleave, a limiter that starts
/// well-formed never holds more slots than its capacity, so no more than
/// `capacity` units of work run at once.
pub proof fn lemma_concurrency_bound(l: ConcurrencyLimiter, ops: Seq<bool>)
    requires
        l.wf(),
    ensures
        limiter_run(l, ops).wf(),
        limiter_run(l, ops).capacity == l.capacity,
    decreases ops.len(),
{
    if ops.len() > 0 {
        lemma_concurrency_bound(l, ops.drop_last());
    }
}

/// Live counts of a running batch, for display only. Times are Unix seconds.
#[derive(Debug, Clone, Copy)]
pub struct ProcessingProgress {
    pub total: usize,
    pub completed: usize,
    pub cached: usize,
    pub failed: usize,
    pub start_time: i64,
}

impl ProcessingProgress {
    /// Nothing done yet of `total` items, started at `start_time`.
    pub fn new(total: usize, start_time: i64) -> (r: Self)
        ensures
            r == (ProcessingProgress { total, completed: 0, cached: 0, failed: 0, start_time }),
    {
        ProcessingProgress { total, completed: 0, cached: 0, failed: 0, start_time }
    }

    /// Records one finished item: a success, fully cached or not, or a
    /// failure. Counters saturate.
    pub fn record(&mut self, succeeded: bool, was_cached: bool)
        ensures
            final(self).total == old(self).total,
            final(self).start_time == old(self).start_time,
            final(self).completed == if old(self).completed < usize::MAX {
                old(self).completed + 1
            } else {
                old(self).completed as int
            },
            final(self).cached == if succeeded && was_cached && old(self).cached < usize::MAX {
                old(self).cached + 1
            } else {
                old(self).cached as int
            },
            final(self).failed == if !succeeded && old(self).failed < usize::MAX {
                old(self).failed + 1
            } else {
                old(self).failed as int
            },
    {
        if self.completed < usize::MAX {
            self.completed = self.completed + 1;
        }
        if succeeded && was_cached && self.cached < usize::MAX {
            self.cached = self.cached + 1;
        }
        if !succeeded && self.failed < usize::MAX {
            self.failed = self.failed + 1;
        }
    }

    /// Seconds until the remaining items are done at the rate seen so far;
    /// `None` before any item is done.
    pub fn eta(&self, now: i64) -> (r: Option<u64>)
        ensures
            self.completed == 0 ==> r is None,
            self.completed > 0 ==> r == Some(eta_seconds(
                self.total as int - self.completed as int,
                self.completed as int,
                now as int - self.start_time as int,
            )),
    {
        if self.completed == 0 {
            return None;
        }
        let remaining: u128 = if self.total > self.completed {
            (self.total - self.completed) as u128
        } else {
            0
        };
        let diff = now as i128 - self.start_time as i128;
        let elapsed: u128 = if diff > 0 {
            diff as u128
        } else {
            0
        };
        assert((remaining as int) * (elapsed as int) <= 0xffff_ffff_ffff_ffffint * 0xffff_ffff_ffff_ffffint)
            by (nonlinear_arith)
            requires
                remaining as int <= 0xffff_ffff_ffff_ffffint,
                elapsed as int <= 0xffff_ffff_ffff_ffffint,
                remaining >= 0,
                elapsed >= 0,
        ;
        let q = (remaining * elapsed) / self.completed as u128;
        if q > u64::MAX as u128 {
            Some(u64::MAX)
        } else {
            Some(q as u64)
        }
    }
}

/// The seconds left for `remaining` items (none when negative) at
/// `completed` items per `elapsed` seconds (none when negative), capped at
/// the largest `u64`.
pub open spec fn eta_seconds(remaining: int, completed: int, elapsed: int) -> u64 {
    let rem = if remaining > 0 { remaining } else { 0 };
    let el = if elapsed > 0 { elapsed } else { 0 };
    let q = rem * el / completed;
    if q > u64::MAX {
        u64::MAX
    } else {
        q as u64
    }
}

/// The consolidated outcome of a batch.
pub struct BatchResult {
    pub successful: Vec<(VocabularyItem, Stage2Result)>,
    pub failed: Vec<(VocabularyItem, String)>,
    pub total_processed: usize,
    pub cache_hits: usize,
    pub processing_time_secs: u64,
}

/// The pipeline's working state: the cache, the queue, the admission
/// limiter and the live progress of the current batch.
pub struct BatchProcessor {
    pub cache_manager: CacheManager,
    pub queue: QueueRepository,
    pub limiter: ConcurrencyLimiter,
    pub progress: ProcessingProgress,
}

/// A row recorded the failure `e` of an attempt: its message is kept; a
/// retryable failure is counted against the retry budget, which leaves the
/// row pending or quarantined; any other failure leaves it failed.
pub open spec fn failure_recorded(o: QueueItem, n: QueueItem, e: PipelineError) -> bool {
    &&& opt_view(n.error_message) == Some(message_of(e))
    &&& if severity_of(e) == ErrorSeverity::Retryable {
        &&& n.retry_count == o.retry_count + 1
        &&& n.status == crate::queue::status_after_failure(o.retry_count as int, o.max_retries as int)
    } else {
        &&& n.retry_count == o.retry_count
        &&& n.status == ProcessingStatus::Failed
    }
}

impl BatchProcessor {
    pub open spec fn wf(&self) -> bool {
        self.cache_manager.wf() && self.queue.wf() && self.limiter.wf()
    }

    /// A processor over the given cache and queue that admits at most
    /// `max_concurrent` items at once.
    pub fn new(cache_manager: CacheManager, queue: QueueRepository, max_concurrent: usize) -> (r: Self)
        requires
            cache_manager.wf(),
            queue.wf(),
        ensures
            r.wf(),
            r.cache_manager == cache_manager,
            r.queue == queue,
            r.limiter.capacity == max_concurrent,
            r.limiter.in_use == 0,
    {
        BatchProcessor {
            cache_manager,
            queue,
            limiter: ConcurrencyLimiter::new(max_concurrent),
            progress: ProcessingProgress::new(0, now_seconds()),
        }
    }

    fn record_failure(&mut self, item_id: i64, e: &PipelineError)
        requires
            old(self).wf(),
            old(self).queue.can_transition(item_id),
        ensures
            final(self).wf(),
            final(self).cache_manager == old(self).cache_manager,
            final(self).limiter == old(self).limiter,
            final(self).progress == old(self).progress,
            others_unchanged(old(self).queue.items@, final(self).queue.items@, item_id - 1),
            final(self).queue.has_row(item_id),
            final(self).queue.checkpoints@ == old(self).queue.checkpoints@,
            failure_recorded(old(self).queue.row(item_id), final(self).queue.row(item_id), *e),
            final(self).queue.row(item_id).stage == old(self).queue.row(item_id).stage,
    {
        let ghost o = self.queue.row(item_id);
        let msg = e.message();
        let _ = self.queue.update_status(item_id, ProcessingStatus::Failed, Some(msg));
        if e.is_retryable() {
            let _ = self.queue.increment_retry(item_id);
        }
    }

    /// Runs one item through both stages. The row named `item_id` is set in
    /// progress; each stage's result comes from the cache or, on a miss, from
    /// its provider, and is stored; the row's stage advances after each; on
    /// success the row ends complete and completed, and the flag tells
    /// whether both stages were cache hits. A provider failure stops the
    /// item's work and is recorded on its row (stage two is never tried
    /// without a stage-one result). No other row changes. Fails with a
    /// validation error, changing nothing, where the row is missing or
    /// quarantined.
    pub fn process_single_item<F1, F2>(
        &mut self,
        item: &VocabularyItem,
        item_id: i64,
        stage1_fn: &F1,
        stage2_fn: &F2,
    ) -> (r: Result<(Stage2Result, bool), PipelineError>)
        where
            F1: Fn(&VocabularyItem) -> Result<(Stage1Result, String, u64, String), PipelineError>,
            F2: Fn(&VocabularyItem, &Stage1Result) -> Result<
                (Stage2Result, String, u64, String),
                PipelineError,
            >,
        requires
            old(self).wf(),
            stage1_fn.requires((item,)),
            forall|s1: &Stage1Result| stage2_fn.requires((item, s1)),
        ensures
            final(self).wf(),
            final(self).limiter == old(self).limiter,
            final(self).progress == old(self).progress,
            others_unchanged(old(self).queue.items@, final(self).queue.items@, item_id - 1),
            old(self).cache_manager.stage1.contents().submap_of(final(self).cache_manager.stage1.contents()),
            old(self).cache_manager.stage2.contents().submap_of(final(self).cache_manager.stage2.contents()),
            old(self).queue.can_transition(item_id) && both_cached(old(self).cache_manager, *item)
                ==> r is Ok,
            old(self).queue.can_transition(item_id) ==> final(self).queue.row(item_id).status
                != ProcessingStatus::InProgress,
            final(self).queue.checkpoints@ == old(self).queue.checkpoints@,
            match r {
                Ok((s2, hit)) => {
                    let k1 = stage1_key(*item);
                    let m1 = final(self).cache_manager.stage1.contents();
                    let m2 = final(self).cache_manager.stage2.contents();
                    &&& hit == both_cached(old(self).cache_manager, *item)
                    &&& old(self).queue.can_transition(item_id)
                    &&& final(self).queue.row(item_id).status == ProcessingStatus::Completed
                    &&& final(self).queue.row(item_id).stage == ProcessingStage::Complete
                    &&& m1.contains_key(k1)
                    &&& m2.contains_key(stage2_key(*item, m1[k1].cache_key))
                    &&& s2@ == m2[stage2_key(*item, m1[k1].cache_key)]
                },
                Err(e) => if old(self).queue.can_transition(item_id) {
                    &&& final(self).queue.row(item_id).status != ProcessingStatus::Completed
                    &&& (stage1_fn.ensures((item,), Err(e)) || exists|s1: &Stage1Result|
                        stage2_fn.ensures((item, s1), Err(e)))
                    &&& failure_recorded(old(self).queue.row(item_id), final(self).queue.row(item_id), e)
                } else {
                    &&& e is Validation
                    &&& final(self).queue.items@ == old(self).queue.items@
                    &&& final(self).cache_manager == old(self).cache_manager
                },
            },
    {
        let ghost q0 = self.queue.items@;
        let ghost c0 = self.cache_manager;
        match self.queue.update_status(item_id, ProcessingStatus::InProgress, None) {
            Ok(()) => {},
            Err(e) => {
                return Err(e);
            },
        }
        let n = self.queue.items.len();
        assert(self.queue.has_row(item_id) && n == self.queue.items@.len());
        let idx = (item_id - 1) as usize;
        let ghost q1 = self.queue.items@;
        let r1 = self.cache_manager.get_or_compute_stage1(
            item,
            (|| -> (r: Result<(Stage1Result, String, u64, String), PipelineError>)
                requires
                    stage1_fn.requires((item,)),
                ensures
                    stage1_fn.ensures((item,), r),
                { stage1_fn(item) }),
        );
        let (s1, hit1) = match r1 {
            Ok(v) => v,
            Err(e) => {
                self.record_failure(item_id, &e);
                proof {
                    assert(self.queue.items@[idx as int] == self.queue.row(item_id));
                }
                return Err(e);
            },
        };
        proof {
            let k1 = stage1_key(*item);
            assert(c0.stage1.contents().submap_of(self.cache_manager.stage1.contents()));
            assert(self.cache_manager.stage1.contents().contains_key(k1));
            assert(s1@ == self.cache_manager.stage1.contents()[k1]);
        }
        if self.queue.items[idx].stage == ProcessingStage::Stage1 {
            let _ = self.queue.complete_stage(item_id);
        }
        match self.queue.update_status(item_id, ProcessingStatus::InProgress, None) {
            Ok(()) => {},
            Err(e) => {
                return Err(e);
            },
        }
        let ghost cs1 = self.cache_manager.stage1;
        let r2 = self.cache_manager.get_or_compute_stage2(
            item,
            &s1,
            (|| -> (r: Result<(Stage2Result, String, u64, String), PipelineError>)
                requires
                    stage2_fn.requires((item, &s1)),
                ensures
                    stage2_fn.ensures((item, &s1), r),
                { stage2_fn(item, &s1) }),
        );
        let (s2, hit2) = match r2 {
            Ok(v) => v,
            Err(e) => {
                self.record_failure(item_id, &e);
                return Err(e);
            },
        };
        if self.queue.items[idx].stage == ProcessingStage::Stage2 {
            let _ = self.queue.complete_stage(item_id);
        }
        match self.queue.update_status(item_id, ProcessingStatus::Completed, None) {
            Ok(()) => {},
            Err(e) => {
                return Err(e);
            },
        }
        Ok((s2, hit1 && hit2))
    }

    /// Runs every item of a batch through both stages, one admission slot
    /// per item, after appending a start marker to the checkpoint log. Each
    /// item is matched to the first row of the batch that holds its id; an
    /// item without one is reported failed. One item's failure never stops
    /// the others: every item is reported exactly once, in input order, as a
    /// success with its stage-two result (which the cache then holds under
    /// the item's keys, and after which its row is complete) or as a failure
    /// with the message of its cause. `cache_hits` counts the successes whose
    /// two stages were both cache hits. Fails as a whole, before any work,
    /// only where the limiter has no slots or the checkpoint log is full.
    pub fn process_batch<F1, F2>(
        &mut self,
        items: Vec<VocabularyItem>,
        batch_id: &str,
        stage1_fn: &F1,
        stage2_fn: &F2,
    ) -> (r: Result<BatchResult, PipelineError>)
        where
            F1: Fn(&VocabularyItem) -> Result<(Stage1Result, String, u64, String), PipelineError>,
            F2: Fn(&VocabularyItem, &Stage1Result) -> Result<
                (Stage2Result, String, u64, String),
                PipelineError,
            >,
        requires
            old(self).wf(),
            old(self).limiter.in_use == 0,
            forall|it: &VocabularyItem| stage1_fn.requires((it,)),
            forall|it: &VocabularyItem, s1: &Stage1Result| stage2_fn.requires((it, s1)),
        ensures
            final(self).wf(),
            final(self).limiter == old(self).limiter,
            final(self).queue.items@.len() == old(self).queue.items@.len(),
            forall|i: int|
                0 <= i < final(self).queue.items@.len() && (#[trigger] final(self).queue.items@[i]).status == ProcessingStatus::InProgress ==> old(self).queue.items@[i].status == ProcessingStatus::InProgress,
            match r {
                Ok(res) => {
                    let cps = final(self).queue.checkpoints@;
                    &&& res.total_processed == items@.len()
                    &&& res.successful@.len() + res.failed@.len() == items@.len()
                    &&& res.cache_hits <= res.successful@.len()
                    &&& exists|t: Seq<ItemOutcome>|
                        batch_reported(
                            items@,
                            t,
                            res.successful@,
                            res.failed@,
                            res.cache_hits,
                            batch_id@,
                            *stage1_fn,
                            *stage2_fn,
                        ) && rows_settled(t, final(self).queue)
                    &&& forall|k: int|
                        0 <= k < res.successful@.len() ==> success_cached(
                            final(self).cache_manager,
                            (#[trigger] res.successful@[k]).0,
                            res.successful@[k].1,
                        )
                    &&& cps.len() == old(self).queue.checkpoints@.len() + 1
                    &&& cps.drop_last() == old(self).queue.checkpoints@
                    &&& cps.last().batch_id@ == batch_id@
                    &&& cps.last().last_processed_id == 0
                    &&& cps.last().stage == ProcessingStage::Stage1
                },
                Err(e) => {
                    &&& (e is Configuration && old(self).limiter.capacity == 0) || (e is Queue
                        && old(self).limiter.capacity > 0 && old(self).queue.checkpoints@.len() + 1
                        >= i64::MAX)
                    &&& final(self).queue.items@ == old(self).queue.items@
                    &&& final(self).cache_manager == old(self).cache_manager
                },
            },
    {
        if self.limiter.capacity == 0 {
            return Err(PipelineError::Configuration(String::from_str("no concurrency slots")));
        }
        match self.queue.save_checkpoint(batch_id, 0, ProcessingStage::Stage1, String::from_str("started")) {
            Ok(()) => {},
            Err(e) => {
                return Err(e);
            },
        }
        let ghost cps0 = self.queue.checkpoints@;
        let start = now_seconds();
        let total = items.len();
        self.progress = ProcessingProgress::new(total, start);
        let mut successful: Vec<(VocabularyItem, Stage2Result)> = Vec::new();
        let mut failed: Vec<(VocabularyItem, String)> = Vec::new();
        let mut cache_hits: usize = 0;
        let ghost n0 = self.queue.items@.len();
        let ghost mut trace: Seq<ItemOutcome> = Seq::empty();
        let mut i: usize = 0;
        while i < total
            invariant
                self.wf(),
                total == items@.len(),
                i <= total,
                self.limiter == old(self).limiter,
                self.limiter.in_use == 0,
                self.limiter.capacity > 0,
                self.queue.items@.len() == n0,
                n0 == old(self).queue.items@.len(),
                self.queue.checkpoints@ == cps0,
                forall|j: int|
                    0 <= j < self.queue.items@.len() && (#[trigger] self.queue.items@[j]).status
                        == ProcessingStatus::InProgress ==> old(self).queue.items@[j].status
                        == ProcessingStatus::InProgress,
                forall|it: &VocabularyItem| stage1_fn.requires((it,)),
                forall|it: &VocabularyItem, s1: &Stage1Result| stage2_fn.requires((it, s1)),
                batch_reported(
                    items@.take(i as int),
                    trace,
                    successful@,
                    failed@,
                    cache_hits,
                    batch_id@,
                    *stage1_fn,
                    *stage2_fn,
                ),
                rows_settled(trace, self.queue),
                forall|k: int|
                    0 <= k < trace.len() ==> (#[trigger] trace[k]).queue_before.items@.len() == n0,
                forall|k: int|
                    0 <= k < successful@.len() ==> success_cached(
                        self.cache_manager,
                        (#[trigger] successful@[k]).0,
                        successful@[k].1,
                    ),
            decreases total - i,
        {
            proof {
                lemma_counts_bounded(trace);
            }
            let item = &items[i];
            let row = match item.id {
                Some(v) => self.queue.find_row(batch_id, v),
                None => None,
            };
            let ghost c_before = self.cache_manager;
            let ghost q_before = self.queue;
            let ghost succ_before = successful@;
            let ghost fail_before = failed@;
            let ghost trace_before = trace;
            let ghost outcome: ItemOutcome;
            match row {
                None => {
                    let copy = item.duplicate();
                    failed.push((copy, String::from_str("item is not enqueued in this batch")));
                    self.progress.record(false, false);
                    proof {
                        outcome = ItemOutcome {
                            succeeded: false,
                            hit: false,
                            row: None,
                            cache_before: c_before,
                            queue_before: q_before,
                        };
                    }
                },
                Some(item_id) => {
                    if self.limiter.try_acquire() {
                        let out = self.process_single_item(item, item_id, stage1_fn, stage2_fn);
                        self.limiter.release();
                        match out {
                            Ok((s2, was_cached)) => {
                                self.progress.record(true, was_cached);
                                if was_cached {
                                    cache_hits = cache_hits + 1;
                                }
                                let copy = item.duplicate();
                                successful.push((copy, s2));
                                proof {
                                    outcome = ItemOutcome {
                                        succeeded: true,
                                        hit: was_cached,
                                        row: Some(item_id),
                                        cache_before: c_before,
                                        queue_before: q_before,
                                    };
                                    crate::vocabulary::lemma_key_deterministic(*item, copy);
                                    crate::vocabulary::lemma_key_ignores_identity(
                                        *item,
                                        copy,
                                        self.cache_manager.stage1.contents()[stage1_key(*item)].cache_key,
                                    );
                                    assert forall|k: int| 0 <= k < successful@.len() implies success_cached(
                                        self.cache_manager,
                                        (#[trigger] successful@[k]).0,
                                        successful@[k].1,
                                    ) by {
                                        if k < succ_before.len() {
                                            assert(successful@[k] == succ_before[k]);
                                            lemma_keys_kept(c_before, self.cache_manager, successful@[k].0, successful@[k].1);
                                        }
                                    }
                                }
                            },
                            Err(e) => {
                                self.progress.record(false, false);
                                let copy = item.duplicate();
                                failed.push((copy, e.message()));
                                proof {
                                    outcome = ItemOutcome {
                                        succeeded: false,
                                        hit: false,
                                        row: Some(item_id),
                                        cache_before: c_before,
                                        queue_before: q_before,
                                    };
                                    assert(message_of(e) == failed@.last().1@);
                                    assert forall|k: int| 0 <= k < successful@.len() implies success_cached(
                                        self.cache_manager,
                                        (#[trigger] successful@[k]).0,
                                        successful@[k].1,
                                    ) by {
                                        lemma_keys_kept(c_before, self.cache_manager, successful@[k].0, successful@[k].1);
                                    }
                                }
                            },
                        }
                    } else {
                        proof {
                            outcome = ItemOutcome {
                                succeeded: false,
                                hit: false,
                                row: Some(item_id),
                                cache_before: c_before,
                                queue_before: q_before,
                            };
                        }
                    }
                },
            }
            proof {
                trace = trace.push(outcome);
                assert(trace.drop_last() =~= trace_before);
                assert(items@.take(i + 1).drop_last() =~= items@.take(i as int));
                let p_i = succeeded_count(trace_before);
                assert(trace.take(i as int) =~= trace_before);
                assert forall|k: int| 0 <= k < i + 1 implies outcome_reported(
                    #[trigger] items@.take(i + 1)[k],
                    trace[k],
                    successful@[succeeded_count(trace.take(k)) as int],
                    failed@[k - succeeded_count(trace.take(k))],
                    batch_id@,
                    *stage1_fn,
                    *stage2_fn,
                ) by {
                    if k < i {
                        assert(trace.take(k) =~= trace_before.take(k));
                        assert(items@.take(i + 1)[k] == items@.take(i as int)[k]);
                        lemma_counts_bounded(trace_before.take(k));
                        lemma_prefix_counts(trace_before, k);
                        let p = succeeded_count(trace_before.take(k));
                        if trace[k].succeeded {
                            assert(successful@[p as int] == succ_before[p as int]);
                        } else {
                            assert(failed@[k - p] == fail_before[k - p]);
                        }
                    }
                }
                assert forall|k: int| 0 <= k < trace.len() && (#[trigger] trace[k]).succeeded implies ({
                    let row = self.queue.row(trace[k].row.unwrap());
                    row.status == ProcessingStatus::Completed && row.stage == ProcessingStage::Complete
                } || exists|j: int| k < j < trace.len() && (#[trigger] trace[j]).row == trace[k].row) by {
                    if k < i {
                        assert(trace[k] == trace_before[k]);
                        if trace[k].row == outcome.row {
                            assert(trace[i as int].row == trace[k].row);
                        } else if exists|j: int| k < j < trace_before.len() && (#[trigger] trace_before[j]).row == trace_before[k].row {
                            let j = choose|j: int| k < j < trace_before.len() && (#[trigger] trace_before[j]).row == trace_before[k].row;
                            assert(trace[j] == trace_before[j]);
                        } else {
                            let id = trace[k].row.unwrap();
                            assert(outcome_reported(
                                items@.take(i as int)[k],
                                trace_before[k],
                                succ_before[succeeded_count(trace_before.take(k)) as int],
                                fail_before[k - succeeded_count(trace_before.take(k))],
                                batch_id@,
                                *stage1_fn,
                                *stage2_fn,
                            ));
                            assert(trace_before[k].queue_before.has_row(id));
                            assert(self.queue.row(id) == q_before.row(id));
                        }
                    }
                }
            }
            i += 1;
        }
        proof {
            assert(items@.take(total as int) =~= items@);
            lemma_counts_bounded(trace);
        }
        let end = now_seconds();
        let elapsed: u64 = if end > start {
            (end as i128 - start as i128) as u64
        } else {
            0
        };
        let res = BatchResult {
            successful,
            failed,
            total_processed: total,
            cache_hits,
            processing_time_secs: elapsed,
        };
        assert(res.successful@ == successful@ && res.failed@ == failed@);
        Ok(res)
    }

    /// Picks up the rows of a batch that are neither completed nor
    /// quarantined and runs the items they hold, looked up by id in
    /// `catalog`, as `process_batch` does. A batch with no such rows gives an
    /// empty result with no elapsed time and changes nothing.
    pub fn resume_batch<F1, F2>(
        &mut self,
        batch_id: &str,
        catalog: &Vec<VocabularyItem>,
        stage1_fn: &F1,
        stage2_fn: &F2,
    ) -> (r: Result<BatchResult, PipelineError>)
        where
            F1: Fn(&VocabularyItem) -> Result<(Stage1Result, String, u64, String), PipelineError>,
            F2: Fn(&VocabularyItem, &Stage1Result) -> Result<
                (Stage2Result, String, u64, String),
                PipelineError,
            >,
        requires
            old(self).wf(),
            old(self).limiter.in_use == 0,
            forall|it: &VocabularyItem| stage1_fn.requires((it,)),
            forall|it: &VocabularyItem, s1: &Stage1Result| stage2_fn.requires((it, s1)),
        ensures
            final(self).wf(),
            final(self).limiter == old(self).limiter,
            resumable_rows(old(self).queue.items@, batch_id@).len() == 0 ==> {
                &&& r matches Ok(res)
                &&& res.total_processed == 0
                &&& res.successful@.len() == 0
                &&& res.failed@.len() == 0
                &&& res.cache_hits == 0
                &&& res.processing_time_secs == 0
                &&& final(self).queue.items@ == old(self).queue.items@
                &&& final(self).cache_manager == old(self).cache_manager
            },
            match r {
                Ok(res) => {
                    let rows = resumable_rows(old(self).queue.items@, batch_id@);
                    &&& res.total_processed == count_named(rows, catalog@)
                    &&& res.successful@.len() + res.failed@.len() == res.total_processed
                    &&& res.cache_hits <= res.successful@.len()
                    &&& exists|picked: Seq<VocabularyItem>, t: Seq<ItemOutcome>|
                        picked.len() == count_named(rows, catalog@) && (forall|k: int|
                            0 <= k < picked.len() ==> from_input(#[trigger] picked[k], catalog@))
                            && batch_reported(
                            picked,
                            t,
                            res.successful@,
                            res.failed@,
                            res.cache_hits,
                            batch_id@,
                            *stage1_fn,
                            *stage2_fn,
                        ) && rows_settled(t, final(self).queue)
                    &&& forall|k: int|
                        0 <= k < res.successful@.len() ==> success_cached(
                            final(self).cache_manager,
                            (#[trigger] res.successful@[k]).0,
                            res.successful@[k].1,
                        )
                },
                Err(e) => (e is Configuration && old(self).limiter.capacity == 0) || (e is Queue
                    && old(self).queue.checkpoints@.len() + 1 >= i64::MAX),
            },
    {
        let rows = self.queue.get_incomplete_items(batch_id);
        if rows.len() == 0 {
            proof {
                let e: Seq<ItemOutcome> = Seq::empty();
                assert(batch_reported(
                    Seq::<VocabularyItem>::empty(),
                    e,
                    Seq::<(VocabularyItem, Stage2Result)>::empty(),
                    Seq::<(VocabularyItem, String)>::empty(),
                    0,
                    batch_id@,
                    *stage1_fn,
                    *stage2_fn,
                ));
                assert(rows_settled(e, self.queue));
            }
            return Ok(
                BatchResult {
                    successful: Vec::new(),
                    failed: Vec::new(),
                    total_processed: 0,
                    cache_hits: 0,
                    processing_time_secs: 0,
                },
            );
        }
        let mut items: Vec<VocabularyItem> = Vec::new();
        let mut i: usize = 0;
        while i < rows.len()
            invariant
                i <= rows@.len(),
                items@.len() == count_named(rows@.take(i as int), catalog@),
                forall|k: int| 0 <= k < items@.len() ==> from_input(#[trigger] items@[k], catalog@),
            decreases rows.len() - i,
        {
            let ghost before = items@;
            let mut j: usize = 0;
            let mut found = false;
            while j < catalog.len() && !found
                invariant
                    i < rows@.len(),
                    j <= catalog@.len(),
                    !found ==> items@ == before,
                    !found ==> forall|c: int| 0 <= c < j ==> (#[trigger] catalog@[c]).id != Some(
                        rows@[i as int].vocabulary_id,
                    ),
                    found ==> items@.len() == before.len() + 1 && names_row(catalog@, rows@[i as int]),
                    forall|k: int| 0 <= k < items@.len() ==> from_input(#[trigger] items@[k], catalog@),
                decreases catalog.len() - j,
            {
                if catalog[j].id == Some(rows[i].vocabulary_id) {
                    let copy = catalog[j].duplicate();
                    items.push(copy);
                    found = true;
                    proof {
                        assert(items@.last().same_as(catalog@[j as int]));
                        assert(catalog@[j as int].id == Some(rows@[i as int].vocabulary_id));
                    }
                }
                j += 1;
            }
            proof {
                assert(rows@.take(i + 1).drop_last() =~= rows@.take(i as int));
            }
            i += 1;
        }
        proof {
            assert(rows@.take(rows@.len() as int) =~= rows@);
        }
        let ghost picked = items@;
        let r = self.process_batch(items, batch_id, stage1_fn, stage2_fn);
        r
    }
}

/// Both of an item's stages are in the cache: its stage-one result under its
/// stage-one key, and a stage-two result under the key derived from it.
pub open spec fn both_cached(c: CacheManager, it: VocabularyItem) -> bool {
    let m1 = c.stage1.contents();
    &&& m1.contains_key(stage1_key(it))
    &&& c.stage2.contents().contains_key(stage2_key(it, m1[stage1_key(it)].cache_key))
}

/// What happened to one input item of a batch run, with the cache and the
/// queue as the item found them.
pub struct ItemOutcome {
    pub succeeded: bool,
    pub hit: bool,
    pub row: Option<i64>,
    pub cache_before: CacheManager,
    pub queue_before: QueueRepository,
}

/// How many of the outcomes are successes.
pub open spec fn succeeded_count(t: Seq<ItemOutcome>) -> nat
    decreases t.len(),
{
    if t.len() == 0 {
        0
    } else {
        succeeded_count(t.drop_last()) + if t.last().succeeded {
            1nat
        } else {
            0nat
        }
    }
}

/// How many of the outcomes are successes with both stages cache hits.
pub open spec fn hit_count(t: Seq<ItemOutcome>) -> nat
    decreases t.len(),
{
    if t.len() == 0 {
        0
    } else {
        hit_count(t.drop_last()) + if t.last().succeeded && t.last().hit {
            1nat
        } else {
            0nat
        }
    }
}

/// The message of an item that has no row in its batch.
pub open spec fn not_enqueued_message() -> Seq<char> {
    "item is not enqueued in this batch"@
}

/// One input item was handled as its outcome says: it was matched to the
/// first row of the batch holding its id, if any; a success is reported in
/// `s`, with the hit flag telling whether both stages were cached; a failure
/// is reported in `f` with the message of its cause: no row, a row that can
/// no longer change, or an error that one of its providers returned.
pub open spec fn outcome_reported<F1, F2>(
    it: VocabularyItem,
    o: ItemOutcome,
    s: (VocabularyItem, Stage2Result),
    f: (VocabularyItem, String),
    batch: Seq<char>,
    stage1_fn: F1,
    stage2_fn: F2,
) -> bool
    where
        F1: Fn(&VocabularyItem) -> Result<(Stage1Result, String, u64, String), PipelineError>,
        F2: Fn(&VocabularyItem, &Stage1Result) -> Result<(Stage2Result, String, u64, String), PipelineError>,
{
    &&& match o.row {
        Some(id) => {
            &&& o.queue_before.has_row(id)
            &&& o.queue_before.row(id).batch_id@ == batch
            &&& it.id == Some(o.queue_before.row(id).vocabulary_id)
        },
        None => it.id is None || forall|j: int|
            0 <= j < o.queue_before.items@.len() ==> !((#[trigger] o.queue_before.items@[j]).batch_id@
                == batch && o.queue_before.items@[j].vocabulary_id == it.id.unwrap()),
    }
    &&& if o.succeeded {
        &&& o.row is Some
        &&& s.0.same_as(it)
        &&& o.hit == both_cached(o.cache_before, it)
    } else {
        &&& f.0.same_as(it)
        &&& match o.row {
            None => f.1@ == not_enqueued_message(),
            Some(id) => exists|e: PipelineError|
                #[trigger] message_of(e) == f.1@ && if o.queue_before.can_transition(id) {
                    &&& !both_cached(o.cache_before, it)
                    &&& (stage1_fn.ensures((&it,), Err(e)) || exists|s1: &Stage1Result|
                        stage2_fn.ensures((&it, s1), Err(e)))
                } else {
                    e is Validation
                },
        }
    }
}

/// Every success left its row complete and completed, unless a later item
/// of the run went through the same row.
pub open spec fn rows_settled(t: Seq<ItemOutcome>, q: QueueRepository) -> bool {
    forall|k: int|
        0 <= k < t.len() && (#[trigger] t[k]).succeeded ==> ({
            let row = q.row(t[k].row.unwrap());
            row.status == ProcessingStatus::Completed && row.stage == ProcessingStage::Complete
        } || exists|j: int| k < j < t.len() && (#[trigger] t[j]).row == t[k].row)
}

/// A batch run reported every input item once, in input order within each
/// list, as its outcome says.
pub open spec fn batch_reported<F1, F2>(
    items: Seq<VocabularyItem>,
    t: Seq<ItemOutcome>,
    successful: Seq<(VocabularyItem, Stage2Result)>,
    failed: Seq<(VocabularyItem, String)>,
    cache_hits: usize,
    batch: Seq<char>,
    stage1_fn: F1,
    stage2_fn: F2,
) -> bool
    where
        F1: Fn(&VocabularyItem) -> Result<(Stage1Result, String, u64, String), PipelineError>,
        F2: Fn(&VocabularyItem, &Stage1Result) -> Result<(Stage2Result, String, u64, String), PipelineError>,
{
    &&& t.len() == items.len()
    &&& successful.len() == succeeded_count(t)
    &&& failed.len() + succeeded_count(t) == items.len()
    &&& cache_hits == hit_count(t)
    &&& forall|k: int|
        0 <= k < items.len() ==> outcome_reported(
            #[trigger] items[k],
            t[k],
            successful[succeeded_count(t.take(k)) as int],
            failed[k - succeeded_count(t.take(k))],
            batch,
            stage1_fn,
            stage2_fn,
        )
}

proof fn lemma_prefix_counts(t: Seq<ItemOutcome>, k: int)
    requires
        0 <= k <= t.len(),
    ensures
        succeeded_count(t.take(k)) <= succeeded_count(t),
        k - succeeded_count(t.take(k)) <= t.len() - succeeded_count(t),
        k < t.len() && t[k].succeeded ==> succeeded_count(t.take(k)) < succeeded_count(t),
        k < t.len() && !t[k].succeeded ==> k - succeeded_count(t.take(k)) < t.len()
            - succeeded_count(t),
    decreases t.len() - k,
{
    if k < t.len() {
        lemma_prefix_counts(t, k + 1);
        assert(t.take(k + 1).drop_last() =~= t.take(k));
    } else {
        assert(t.take(k) =~= t);
    }
}

proof fn lemma_counts_bounded(t: Seq<ItemOutcome>)
    ensures
        hit_count(t) <= succeeded_count(t) <= t.len(),
    decreases t.len(),
{
    if t.len() > 0 {
        lemma_counts_bounded(t.drop_last());
    }
}

/// Whether some item of `catalog` has the row's vocabulary id.
pub open spec fn names_row(catalog: Seq<VocabularyItem>, row: QueueItem) -> bool {
    exists|c: int| 0 <= c < catalog.len() && (#[trigger] catalog[c]).id == Some(row.vocabulary_id)
}

/// How many of `rows` name an item of `catalog`.
pub open spec fn count_named(rows: Seq<QueueItem>, catalog: Seq<VocabularyItem>) -> nat
    decreases rows.len(),
{
    if rows.len() == 0 {
        0
    } else {
        count_named(rows.drop_last(), catalog) + if names_row(catalog, rows.last()) {
            1nat
        } else {
            0nat
        }
    }
}

/// A copy of one of `items`.
pub open spec fn from_input(it: VocabularyItem, items: Seq<VocabularyItem>) -> bool {
    exists|j: int| 0 <= j < items.len() && it.same_as(#[trigger] items[j])
}

/// The cache holds the item's stage-one result under its stage-one key,
/// and `s2` under the stage-two key derived from that result.
pub open spec fn success_cached(c: CacheManager, it: VocabularyItem, s2: Stage2Result) -> bool {
    let k1 = stage1_key(it);
    let m1 = c.stage1.contents();
    let m2 = c.stage2.contents();
    &&& m1.contains_key(k1)
    &&& m2.contains_key(stage2_key(it, m1[k1].cache_key))
    &&& s2@ == m2[stage2_key(it, m1[k1].cache_key)]
}

/// Entries already in the cache keep their values when it grows, so every
/// recorded success still finds its results under its keys.
proof fn lemma_keys_kept(before: CacheManager, after: CacheManager, it: VocabularyItem, s2: Stage2Result)
    requires
        before.stage1.contents().submap_of(after.stage1.contents()),
        before.stage2.contents().submap_of(after.stage2.contents()),
        success_cached(before, it, s2),
    ensures
        success_cached(after, it, s2),
{
    let k1 = stage1_key(it);
    assert(before.stage1.contents().dom().contains(k1));
    assert(after.stage1.contents().dom().contains(k1));
    assert(after.stage1.contents()[k1] == before.stage1.contents()[k1]);
    let k2 = stage2_key(it, before.stage1.contents()[k1].cache_key);
    assert(before.stage2.contents().dom().contains(k2));
    assert(after.stage2.contents().dom().contains(k2));
}

} // verus!

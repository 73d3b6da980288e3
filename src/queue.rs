//! The per-item processing state machine and the queue store that holds it.
use crate::error::PipelineError;
use crate::text::copy_opt;
use crate::vocabulary::now_seconds;
use vstd::prelude::*;

verus! {

/// Where an item stands within its current stage.
#[derive(Debug, Clone, Copy, PartialEq, Eq, Structural)]
pub enum ProcessingStatus {
    Pending,
    InProgress,
    Completed,
    Failed,
    Quarantined,
}

/// Which computation an item is waiting for.
#[derive(Debug, Clone, Copy, PartialEq, Eq, Structural)]
pub enum ProcessingStage {
    Stage1,
    Stage2,
    Complete,
}

/// The stored name of a status.
pub open spec fn status_name(s: ProcessingStatus) -> Seq<char> {
    match s {
        ProcessingStatus::Pending => "pending"@,
        ProcessingStatus::InProgress => "in_progress"@,
        ProcessingStatus::Completed => "completed"@,
        ProcessingStatus::Failed => "failed"@,
        ProcessingStatus::Quarantined => "quarantined"@,
    }
}

/// The stored name of a stage.
pub open spec fn stage_name(s: ProcessingStage) -> Seq<char> {
    match s {
        ProcessingStage::Stage1 => "stage1"@,
        ProcessingStage::Stage2 => "stage2"@,
        ProcessingStage::Complete => "complete"@,
    }
}

fn same_text(a: &str, b: &str) -> (r: bool)
    ensures
        r == (a@ == b@),
{
    String::from_str(a) == String::from_str(b)
}

impl ProcessingStatus {
    /// The stored name of the status.
    pub fn as_str(&self) -> (r: &'static str)
        ensures
            r@ == status_name(*self),
    {
        match self {
            ProcessingStatus::Pending => "pending",
            ProcessingStatus::InProgress => "in_progress",
            ProcessingStatus::Completed => "completed",
            ProcessingStatus::Failed => "failed",
            ProcessingStatus::Quarantined => "quarantined",
        }
    }

    /// The status stored under a name; any other name is a validation error.
    pub fn parse(s: &str) -> (r: Result<Self, PipelineError>)
        ensures
            match r {
                Ok(v) => status_name(v) == s@,
                Err(e) => e is Validation && forall|v: ProcessingStatus| status_name(v) != s@,
            },
    {
        if same_text(s, "pending") {
            Ok(ProcessingStatus::Pending)
        } else if same_text(s, "in_progress") {
            Ok(ProcessingStatus::InProgress)
        } else if same_text(s, "completed") {
            Ok(ProcessingStatus::Completed)
        } else if same_text(s, "failed") {
            Ok(ProcessingStatus::Failed)
        } else if same_text(s, "quarantined") {
            Ok(ProcessingStatus::Quarantined)
        } else {
            Err(PipelineError::Validation(crate::text::concat2("Invalid status: ", s)))
        }
    }
}

impl ProcessingStage {
    /// The stored name of the stage.
    pub fn as_str(&self) -> (r: &'static str)
        ensures
            r@ == stage_name(*self),
    {
        match self {
            ProcessingStage::Stage1 => "stage1",
            ProcessingStage::Stage2 => "stage2",
            ProcessingStage::Complete => "complete",
        }
    }

    /// The stage stored under a name; any other name is a validation error.
    pub fn parse(s: &str) -> (r: Result<Self, PipelineError>)
        ensures
            match r {
                Ok(v) => stage_name(v) == s@,
                Err(e) => e is Validation && forall|v: ProcessingStage| stage_name(v) != s@,
            },
    {
        if same_text(s, "stage1") {
            Ok(ProcessingStage::Stage1)
        } else if same_text(s, "stage2") {
            Ok(ProcessingStage::Stage2)
        } else if same_text(s, "complete") {
            Ok(ProcessingStage::Complete)
        } else {
            Err(PipelineError::Validation(crate::text::concat2("Invalid stage: ", s)))
        }
    }
}

/// The retry budget given to each enqueued item.
pub const DEFAULT_MAX_RETRIES: i32 = 3;

/// One row per (vocabulary item, batch); times are Unix seconds.
#[derive(Debug, Clone)]
pub struct QueueItem {
    pub id: Option<i64>,
    pub vocabulary_id: i64,
    pub batch_id: String,
    pub status: ProcessingStatus,
    pub stage: ProcessingStage,
    pub retry_count: i32,
    pub max_retries: i32,
    pub error_message: Option<String>,
    pub created_at: i64,
    pub updated_at: i64,
    pub started_at: Option<i64>,
    pub completed_at: Option<i64>,
}

/// The stage and status that completing the current stage leads to; `None`
/// where no transition is defined.
pub open spec fn next_stage(stage: ProcessingStage) -> Option<(ProcessingStage, ProcessingStatus)> {
    match stage {
        ProcessingStage::Stage1 => Some((ProcessingStage::Stage2, ProcessingStatus::Pending)),
        ProcessingStage::Stage2 => Some((ProcessingStage::Complete, ProcessingStatus::Completed)),
        ProcessingStage::Complete => None,
    }
}

/// Whether a failure with `retry_count` earlier failures leaves the item
/// eligible for another attempt.
pub open spec fn retry_eligible(retry_count: int, max_retries: int) -> bool {
    retry_count + 1 < max_retries
}

/// The status that a failure leads to.
pub open spec fn status_after_failure(retry_count: int, max_retries: int) -> ProcessingStatus {
    if retry_eligible(retry_count, max_retries) {
        ProcessingStatus::Pending
    } else {
        ProcessingStatus::Quarantined
    }
}

impl QueueItem {
    /// The retry counter lies within its budget, and an item that has used
    /// the whole budget is quarantined.
    pub open spec fn wf(self) -> bool {
        &&& 0 <= self.retry_count <= self.max_retries
        &&& self.retry_count == self.max_retries ==> self.status == ProcessingStatus::Quarantined
    }

    /// A new pending row at stage one with the default retry budget.
    pub fn new(vocabulary_id: i64, batch_id: String) -> (r: Self)
        ensures
            r.id is None,
            r.vocabulary_id == vocabulary_id,
            r.batch_id == batch_id,
            r.status == ProcessingStatus::Pending,
            r.stage == ProcessingStage::Stage1,
            r.retry_count == 0,
            r.max_retries == DEFAULT_MAX_RETRIES,
            r.error_message is None,
            r.started_at is None,
            r.completed_at is None,
            r.wf(),
    {
        let now = now_seconds();
        QueueItem {
            id: None,
            vocabulary_id,
            batch_id,
            status: ProcessingStatus::Pending,
            stage: ProcessingStage::Stage1,
            retry_count: 0,
            max_retries: DEFAULT_MAX_RETRIES,
            error_message: None,
            created_at: now,
            updated_at: now,
            started_at: None,
            completed_at: None,
        }
    }

    /// A copy of the row.
    pub fn duplicate(&self) -> (r: Self)
        ensures
            r == *self,
    {
        QueueItem {
            id: self.id,
            vocabulary_id: self.vocabulary_id,
            batch_id: self.batch_id.clone(),
            status: self.status,
            stage: self.stage,
            retry_count: self.retry_count,
            max_retries: self.max_retries,
            error_message: copy_opt(&self.error_message),
            created_at: self.created_at,
            updated_at: self.updated_at,
            started_at: self.started_at,
            completed_at: self.completed_at,
        }
    }

    /// Marks the row as being worked on.
    pub fn start_processing(&mut self)
        ensures
            final(self).status == ProcessingStatus::InProgress,
            final(self).started_at is Some,
            final(self).stage == old(self).stage,
            final(self).retry_count == old(self).retry_count,
            final(self).max_retries == old(self).max_retries,
            final(self).id == old(self).id,
            final(self).batch_id == old(self).batch_id,
            final(self).vocabulary_id == old(self).vocabulary_id,
    {
        let now = now_seconds();
        self.status = ProcessingStatus::InProgress;
        self.started_at = Some(now);
        self.updated_at = now;
    }

    /// Completes the current stage: stage one leads to (stage two, pending),
    /// stage two to (complete, completed); a complete row stays as it is.
    pub fn complete_stage(&mut self)
        ensures
            match next_stage(old(self).stage) {
                Some((st, su)) => final(self).stage == st && final(self).status == su,
                None => final(self).stage == old(self).stage && final(self).status == old(
                    self,
                ).status,
            },
            old(self).stage == ProcessingStage::Stage2 ==> final(self).completed_at is Some,
            old(self).stage != ProcessingStage::Stage2 ==> final(self).completed_at == old(
                self,
            ).completed_at,
            final(self).started_at == old(self).started_at,
            final(self).error_message == old(self).error_message,
            final(self).retry_count == old(self).retry_count,
            final(self).max_retries == old(self).max_retries,
            final(self).id == old(self).id,
            final(self).batch_id == old(self).batch_id,
            final(self).vocabulary_id == old(self).vocabulary_id,
    {
        let now = now_seconds();
        match self.stage {
            ProcessingStage::Stage1 => {
                self.stage = ProcessingStage::Stage2;
                self.status = ProcessingStatus::Pending;
            },
            ProcessingStage::Stage2 => {
                self.stage = ProcessingStage::Complete;
                self.status = ProcessingStatus::Completed;
                self.completed_at = Some(now);
            },
            ProcessingStage::Complete => {},
        }
        self.updated_at = now;
    }

    /// Records a failure: counts it, keeps the message, and returns whether
    /// the row may be tried again (pending) or is now quarantined.
    pub fn fail_with_retry(&mut self, error: String) -> (r: bool)
        requires
            old(self).retry_count < i32::MAX,
        ensures
            final(self).retry_count == old(self).retry_count + 1,
            r == retry_eligible(old(self).retry_count as int, old(self).max_retries as int),
            final(self).status == status_after_failure(
                old(self).retry_count as int,
                old(self).max_retries as int,
            ),
            final(self).error_message == Some(error),
            final(self).started_at == old(self).started_at,
            final(self).completed_at == old(self).completed_at,
            final(self).stage == old(self).stage,
            final(self).max_retries == old(self).max_retries,
            final(self).id == old(self).id,
            final(self).batch_id == old(self).batch_id,
            final(self).vocabulary_id == old(self).vocabulary_id,
    {
        self.retry_count = self.retry_count + 1;
        self.error_message = Some(error);
        self.updated_at = now_seconds();
        if self.retry_count >= self.max_retries {
            self.status = ProcessingStatus::Quarantined;
            false
        } else {
            self.status = ProcessingStatus::Pending;
            true
        }
    }

    /// Quarantines the row with the given reason.
    pub fn quarantine(&mut self, reason: String)
        ensures
            final(self).status == ProcessingStatus::Quarantined,
            final(self).error_message == Some(reason),
            final(self).stage == old(self).stage,
            final(self).retry_count == old(self).retry_count,
            final(self).max_retries == old(self).max_retries,
            final(self).id == old(self).id,
            final(self).batch_id == old(self).batch_id,
            final(self).vocabulary_id == old(self).vocabulary_id,
    {
        self.status = ProcessingStatus::Quarantined;
        self.error_message = Some(reason);
        self.updated_at = now_seconds();
    }
}

/// The aggregate of one batch, recomputed from its rows. Times are Unix
/// seconds; throughput is `completed_items / elapsed_seconds`.
#[derive(Debug, Clone)]
pub struct BatchProgress {
    pub batch_id: String,
    pub total_items: usize,
    pub completed_items: usize,
    pub failed_items: usize,
    pub quarantined_items: usize,
    pub pending_items: usize,
    pub in_progress_items: usize,
    pub start_time: i64,
    pub elapsed_seconds: i64,
    pub estimated_completion: Option<i64>,
}

/// `x`, capped at the largest `u64`.
pub open spec fn cap_u64(x: int) -> u64 {
    if x > u64::MAX {
        u64::MAX
    } else {
        x as u64
    }
}

/// The expected completion time: `now` plus the pending items at the rate
/// seen so far, saturating at the largest time; only once an item has
/// completed, time has passed and items are pending.
pub open spec fn eta_of(pending: int, completed: int, elapsed: int, now: int) -> Option<i64> {
    if completed > 0 && elapsed > 0 && pending > 0 {
        let t = now + (pending * elapsed) / completed;
        if t > i64::MAX {
            Some(i64::MAX)
        } else {
            Some(t as i64)
        }
    } else {
        None
    }
}

impl BatchProgress {
    /// Every row of the batch is counted under exactly one status.
    pub open spec fn counts_add_up(self) -> bool {
        self.completed_items + self.failed_items + self.quarantined_items + self.pending_items
            + self.in_progress_items == self.total_items
    }

    /// The whole percentage of rows completed (rounded down, capped at the
    /// largest `u64`); 0 for an empty batch.
    pub fn calculate_progress(&self) -> (r: u64)
        ensures
            self.total_items == 0 ==> r == 0,
            self.total_items > 0 ==> r == cap_u64(
                (self.completed_items as int) * 100 / (self.total_items as int),
            ),
    {
        if self.total_items == 0 {
            return 0;
        }
        let c = self.completed_items as u128;
        let t = self.total_items as u128;
        assert((c as int) * 100 <= 0xffff_ffff_ffff_ffffint * 100) by (nonlinear_arith)
            requires
                c as int <= 0xffff_ffff_ffff_ffffint,
                c >= 0,
        ;
        let q = (c * 100) / t;
        if q > u64::MAX as u128 {
            u64::MAX
        } else {
            q as u64
        }
    }

    /// Sets the expected completion time from the rate so far, where one is
    /// defined; leaves it as it was otherwise.
    pub fn estimate_completion(&mut self, now: i64)
        ensures
            eta_of(
                old(self).pending_items as int,
                old(self).completed_items as int,
                old(self).elapsed_seconds as int,
                now as int,
            ) matches Some(t) ==> final(self).estimated_completion == Some(t),
            eta_of(
                old(self).pending_items as int,
                old(self).completed_items as int,
                old(self).elapsed_seconds as int,
                now as int,
            ) is None ==> final(self).estimated_completion == old(self).estimated_completion,
            final(self).batch_id == old(self).batch_id,
            final(self).total_items == old(self).total_items,
            final(self).completed_items == old(self).completed_items,
            final(self).failed_items == old(self).failed_items,
            final(self).quarantined_items == old(self).quarantined_items,
            final(self).pending_items == old(self).pending_items,
            final(self).in_progress_items == old(self).in_progress_items,
            final(self).start_time == old(self).start_time,
            final(self).elapsed_seconds == old(self).elapsed_seconds,
    {
        if self.completed_items > 0 && self.elapsed_seconds > 0 && self.pending_items > 0 {
            let p = self.pending_items as u128;
            let e = self.elapsed_seconds as u128;
            let c = self.completed_items as u128;
            assert((p as int) * (e as int) <= 0xffff_ffff_ffff_ffffint * 0x7fff_ffff_ffff_ffffint)
                by (nonlinear_arith)
                requires
                    p as int <= 0xffff_ffff_ffff_ffffint,
                    e as int <= 0x7fff_ffff_ffff_ffffint,
                    p >= 0,
                    e >= 0,
            ;
            let q = (p * e) / c;
            let room: u128 = (i64::MAX as i128 - now as i128) as u128;
            if q > room {
                self.estimated_completion = Some(i64::MAX);
            } else {
                self.estimated_completion = Some((now as i128 + q as i128) as i64);
            }
        }
    }

    /// No row of the batch is pending or in progress.
    pub fn is_complete(&self) -> (r: bool)
        ensures
            r == (self.pending_items == 0 && self.in_progress_items == 0),
    {
        self.pending_items == 0 && self.in_progress_items == 0
    }
}

/// The rows of `items` that belong to `batch` and have status `s`.
pub open spec fn count_status(items: Seq<QueueItem>, batch: Seq<char>, s: ProcessingStatus) -> nat
    decreases items.len(),
{
    if items.len() == 0 {
        0
    } else {
        count_status(items.drop_last(), batch, s) + if items.last().batch_id@ == batch
            && items.last().status == s {
            1nat
        } else {
            0nat
        }
    }
}

/// The rows of `items` that belong to `batch`.
pub open spec fn count_batch(items: Seq<QueueItem>, batch: Seq<char>) -> nat
    decreases items.len(),
{
    if items.len() == 0 {
        0
    } else {
        count_batch(items.drop_last(), batch) + if items.last().batch_id@ == batch {
            1nat
        } else {
            0nat
        }
    }
}

proof fn lemma_count_absent(s: Seq<QueueItem>, x: Seq<char>)
    requires
        forall|i: int| 0 <= i < s.len() ==> (#[trigger] s[i]).batch_id@ != x,
    ensures
        count_batch(s, x) == 0,
    decreases s.len(),
{
    if s.len() > 0 {
        lemma_count_absent(s.drop_last(), x);
    }
}

proof fn lemma_count_uniform(t: Seq<QueueItem>, b: Seq<char>, x: Seq<char>)
    requires
        forall|i: int| 0 <= i < t.len() ==> (#[trigger] t[i]).batch_id@ == b,
    ensures
        count_batch(t, x) == if x == b { t.len() } else { 0 },
    decreases t.len(),
{
    if t.len() > 0 {
        lemma_count_uniform(t.drop_last(), b, x);
    }
}

proof fn lemma_count_concat(s: Seq<QueueItem>, t: Seq<QueueItem>, x: Seq<char>)
    ensures
        count_batch(s + t, x) == count_batch(s, x) + count_batch(t, x),
    decreases t.len(),
{
    if t.len() > 0 {
        assert((s + t).drop_last() =~= s + t.drop_last());
        lemma_count_concat(s, t.drop_last(), x);
    } else {
        assert(s + t =~= s);
    }
}

proof fn lemma_count_same_batches(s: Seq<QueueItem>, t: Seq<QueueItem>, x: Seq<char>)
    requires
        s.len() == t.len(),
        forall|i: int| 0 <= i < s.len() ==> (#[trigger] s[i]).batch_id@ == t[i].batch_id@,
    ensures
        count_batch(s, x) == count_batch(t, x),
    decreases s.len(),
{
    if s.len() > 0 {
        lemma_count_same_batches(s.drop_last(), t.drop_last(), x);
    }
}

proof fn lemma_totals_kept(before: QueueRepository, after: QueueRepository)
    requires
        before.totals_match(),
        after.items@.len() == before.items@.len(),
        forall|i: int|
            0 <= i < before.items@.len() ==> (#[trigger] after.items@[i]).batch_id
                == before.items@[i].batch_id,
        after.batches@.len() == before.batches@.len(),
        forall|j: int|
            0 <= j < before.batches@.len() ==> (#[trigger] after.batches@[j]).batch_id
                == before.batches@[j].batch_id && after.batches@[j].total_items
                == before.batches@[j].total_items,
    ensures
        after.totals_match(),
{
    assert forall|i: int| 0 <= i < after.items@.len() implies after.has_batch(
        (#[trigger] after.items@[i]).batch_id@) by {
        assert(before.has_batch(before.items@[i].batch_id@));
        let j = choose|j: int| 0 <= j < before.batches@.len() && (#[trigger] before.batches@[j]).batch_id@ == before.items@[i].batch_id@;
        assert(after.batches@[j].batch_id == before.batches@[j].batch_id);
    }
    assert forall|j: int| 0 <= j < after.batches@.len() implies (#[trigger] after.batches@[j]).total_items
        == count_batch(after.items@, after.batches@[j].batch_id@) by {
        assert(before.batches@[j].total_items == count_batch(before.items@, before.batches@[j].batch_id@));
        lemma_count_same_batches(before.items@, after.items@, before.batches@[j].batch_id@);
    }
}

/// The five status counts of a batch add up to its number of rows.
pub proof fn lemma_status_counts_partition(items: Seq<QueueItem>, batch: Seq<char>)
    ensures
        count_status(items, batch, ProcessingStatus::Completed) + count_status(
            items,
            batch,
            ProcessingStatus::Failed,
        ) + count_status(items, batch, ProcessingStatus::Quarantined) + count_status(
            items,
            batch,
            ProcessingStatus::Pending,
        ) + count_status(items, batch, ProcessingStatus::InProgress) == count_batch(items, batch),
    decreases items.len(),
{
    if items.len() > 0 {
        lemma_status_counts_partition(items.drop_last(), batch);
    }
}

proof fn lemma_counts_bounded(items: Seq<QueueItem>, batch: Seq<char>, s: ProcessingStatus)
    ensures
        count_status(items, batch, s) <= count_batch(items, batch),
        count_batch(items, batch) <= items.len(),
    decreases items.len(),
{
    if items.len() > 0 {
        lemma_counts_bounded(items.drop_last(), batch, s);
    }
}

/// The counts of one batch's rows: total, completed, failed, quarantined,
/// pending, in progress.
pub struct StatusCounts {
    pub total: usize,
    pub completed: usize,
    pub failed: usize,
    pub quarantined: usize,
    pub pending: usize,
    pub in_progress: usize,
}

impl StatusCounts {
    /// The counts are those of `batch` in `items`.
    pub open spec fn of(self, items: Seq<QueueItem>, batch: Seq<char>) -> bool {
        &&& self.total == count_batch(items, batch)
        &&& self.completed == count_status(items, batch, ProcessingStatus::Completed)
        &&& self.failed == count_status(items, batch, ProcessingStatus::Failed)
        &&& self.quarantined == count_status(items, batch, ProcessingStatus::Quarantined)
        &&& self.pending == count_status(items, batch, ProcessingStatus::Pending)
        &&& self.in_progress == count_status(items, batch, ProcessingStatus::InProgress)
    }
}

/// Counts the rows of `batch` by status.
pub fn count_rows(items: &Vec<QueueItem>, batch: &String) -> (r: StatusCounts)
    ensures
        r.of(items@, batch@),
{
    let mut r = StatusCounts {
        total: 0,
        completed: 0,
        failed: 0,
        quarantined: 0,
        pending: 0,
        in_progress: 0,
    };
    let mut i: usize = 0;
    while i < items.len()
        invariant
            i <= items.len(),
            r.of(items@.take(i as int), batch@),
        decreases items.len() - i,
    {
        let ghost pre = items@.take(i as int);
        let ghost next = items@.take(i + 1);
        proof {
            assert(next.drop_last() =~= pre);
            lemma_counts_bounded(pre, batch@, ProcessingStatus::Pending);
            lemma_counts_bounded(pre, batch@, ProcessingStatus::Completed);
            lemma_counts_bounded(pre, batch@, ProcessingStatus::Failed);
            lemma_counts_bounded(pre, batch@, ProcessingStatus::Quarantined);
            lemma_counts_bounded(pre, batch@, ProcessingStatus::InProgress);
        }
        if items[i].batch_id == *batch {
            r.total = r.total + 1;
            match items[i].status {
                ProcessingStatus::Completed => r.completed = r.completed + 1,
                ProcessingStatus::Failed => r.failed = r.failed + 1,
                ProcessingStatus::Quarantined => r.quarantined = r.quarantined + 1,
                ProcessingStatus::Pending => r.pending = r.pending + 1,
                ProcessingStatus::InProgress => r.in_progress = r.in_progress + 1,
            }
        }
        i += 1;
    }
    assert(items@.take(items@.len() as int) =~= items@);
    r
}

/// The state of a batch as a whole.
#[derive(Debug, Clone, Copy, PartialEq, Eq, Structural)]
pub enum BatchState {
    Pending,
    InProgress,
    Completed,
    Partial,
}

/// One row per batch, refreshed whenever one of its rows reaches a terminal
/// status.
#[derive(Debug, Clone)]
pub struct BatchMetadata {
    pub batch_id: String,
    pub total_items: usize,
    pub completed_items: usize,
    pub failed_items: usize,
    pub quarantined_items: usize,
    pub state: BatchState,
    pub start_time: i64,
    pub end_time: Option<i64>,
}

/// An entry of the append-only checkpoint log; `checkpoint_data` is an
/// opaque resumption payload.
#[derive(Debug, Clone)]
pub struct ProcessingCheckpoint {
    pub id: Option<i64>,
    pub batch_id: String,
    pub last_processed_id: i64,
    pub stage: ProcessingStage,
    pub checkpoint_data: String,
    pub created_at: i64,
}

/// The queue: its rows (row `i` has id `i + 1`), one metadata row per batch,
/// and the checkpoint log.
pub struct QueueRepository {
    pub items: Vec<QueueItem>,
    pub batches: Vec<BatchMetadata>,
    pub checkpoints: Vec<ProcessingCheckpoint>,
}

/// A fresh row of a batch.
pub open spec fn fresh_row(r: QueueItem, id: int, vocabulary_id: i64, batch: Seq<char>) -> bool {
    &&& r.id == Some(id as i64)
    &&& r.vocabulary_id == vocabulary_id
    &&& r.batch_id@ == batch
    &&& r.status == ProcessingStatus::Pending
    &&& r.stage == ProcessingStage::Stage1
    &&& r.retry_count == 0
    &&& r.max_retries == DEFAULT_MAX_RETRIES
    &&& r.error_message is None
    &&& r.started_at is None
    &&& r.completed_at is None
}

/// Whether a row is a pending row of the given batch, or of any batch.
pub open spec fn pending_in(r: QueueItem, batch: Option<Seq<char>>) -> bool {
    &&& r.status == ProcessingStatus::Pending
    &&& match batch {
        Some(b) => r.batch_id@ == b,
        None => true,
    }
}

/// Whether a status ends a row's current attempt and refreshes its batch.
pub open spec fn is_terminal(s: ProcessingStatus) -> bool {
    s == ProcessingStatus::Completed || s == ProcessingStatus::Failed || s
        == ProcessingStatus::Quarantined
}

/// The rows of `batch` that automatic processing should still pick up:
/// neither completed nor quarantined.
pub open spec fn resumable_rows(items: Seq<QueueItem>, batch: Seq<char>) -> Seq<QueueItem>
    decreases items.len(),
{
    if items.len() == 0 {
        Seq::empty()
    } else {
        let rest = resumable_rows(items.drop_last(), batch);
        let r = items.last();
        if r.batch_id@ == batch && r.status != ProcessingStatus::Completed && r.status
            != ProcessingStatus::Quarantined {
            rest.push(r)
        } else {
            rest
        }
    }
}

/// Every row but the one at `idx` is unchanged.
pub open spec fn others_unchanged(before: Seq<QueueItem>, after: Seq<QueueItem>, idx: int) -> bool {
    &&& after.len() == before.len()
    &&& forall|j: int| 0 <= j < before.len() && j != idx ==> after[j] == before[j]
}

/// Two versions of a row that name the same item of the same batch.
pub open spec fn same_identity(a: QueueItem, b: QueueItem) -> bool {
    &&& a.id == b.id
    &&& a.vocabulary_id == b.vocabulary_id
    &&& a.batch_id == b.batch_id
    &&& a.max_retries == b.max_retries
    &&& a.created_at == b.created_at
}

/// The state of a batch from its counts.
pub open spec fn batch_state_of(pending: nat, in_progress: nat, failed: nat, quarantined: nat) -> BatchState {
    if pending == 0 && in_progress == 0 {
        if failed > 0 || quarantined > 0 {
            BatchState::Partial
        } else {
            BatchState::Completed
        }
    } else {
        BatchState::InProgress
    }
}

/// The metadata row of `batch` was refreshed from `items` (where `refresh`
/// holds); every other metadata row is unchanged.
pub open spec fn batches_refreshed(
    before: Seq<BatchMetadata>,
    after: Seq<BatchMetadata>,
    items: Seq<QueueItem>,
    batch: Seq<char>,
    refresh: bool,
) -> bool {
    &&& after.len() == before.len()
    &&& forall|j: int|
        0 <= j < before.len() ==> if refresh && (#[trigger] before[j]).batch_id@ == batch {
            let m = after[j];
            &&& m.batch_id == before[j].batch_id
            &&& m.total_items == before[j].total_items
            &&& m.start_time == before[j].start_time
            &&& m.completed_items == count_status(items, batch, ProcessingStatus::Completed)
            &&& m.failed_items == count_status(items, batch, ProcessingStatus::Failed)
            &&& m.quarantined_items == count_status(items, batch, ProcessingStatus::Quarantined)
            &&& m.state == batch_state_of(
                count_status(items, batch, ProcessingStatus::Pending),
                count_status(items, batch, ProcessingStatus::InProgress),
                count_status(items, batch, ProcessingStatus::Failed),
                count_status(items, batch, ProcessingStatus::Quarantined),
            )
        } else {
            after[j] == before[j]
        }
}

/// The view of an optional string slice.
pub open spec fn opt_str_view(o: Option<&str>) -> Option<Seq<char>> {
    match o {
        Some(s) => Some(s@),
        None => None,
    }
}

impl QueueRepository {
    /// Row ids match positions, every row is within its retry budget, batch
    /// ids are unique, and metadata totals match the rows.
    pub open spec fn wf(&self) -> bool {
        self.wf_core() && self.totals_match()
    }

    /// Every row belongs to a batch that has a metadata row, and each
    /// metadata row's total is the number of rows of its batch.
    pub open spec fn totals_match(&self) -> bool {
        &&& forall|i: int|
            0 <= i < self.items@.len() ==> self.has_batch((#[trigger] self.items@[i]).batch_id@)
        &&& forall|j: int|
            0 <= j < self.batches@.len() ==> (#[trigger] self.batches@[j]).total_items
                == count_batch(self.items@, self.batches@[j].batch_id@)
    }

    /// Row ids match positions, every row is within its retry budget,
    /// batch ids are unique, and the logs fit their ids.
    pub open spec fn wf_core(&self) -> bool {
        &&& self.items@.len() < i64::MAX
        &&& self.checkpoints@.len() < i64::MAX
        &&& forall|i: int|
            0 <= i < self.items@.len() ==> (#[trigger] self.items@[i]).id == Some((i + 1) as i64)
                && self.items@[i].wf()
        &&& forall|i: int, j: int|
            0 <= i < j < self.batches@.len() ==> (#[trigger] self.batches@[i]).batch_id@
                != (#[trigger] self.batches@[j]).batch_id@
    }

    /// Whether `id` names a row.
    pub open spec fn has_row(&self, id: i64) -> bool {
        1 <= id <= self.items@.len()
    }

    /// The row named `id`.
    pub open spec fn row(&self, id: i64) -> QueueItem {
        self.items@[id - 1]
    }

    /// Whether a batch with this id exists.
    pub open spec fn has_batch(&self, batch: Seq<char>) -> bool {
        exists|i: int| 0 <= i < self.batches@.len() && (#[trigger] self.batches@[i]).batch_id@ == batch
    }

    /// An empty queue.
    pub fn new() -> (r: Self)
        ensures
            r.wf(),
            r.items@.len() == 0,
            r.batches@.len() == 0,
            r.checkpoints@.len() == 0,
    {
        QueueRepository { items: Vec::new(), batches: Vec::new(), checkpoints: Vec::new() }
    }

    fn find_batch(&self, batch: &String) -> (r: Option<usize>)
        ensures
            match r {
                Some(i) => i < self.batches@.len() && self.batches@[i as int].batch_id@ == batch@,
                None => !self.has_batch(batch@),
            },
    {
        let mut i: usize = 0;
        while i < self.batches.len()
            invariant
                i <= self.batches@.len(),
                forall|j: int| 0 <= j < i ==> (#[trigger] self.batches@[j]).batch_id@ != batch@,
            decreases self.batches.len() - i,
        {
            if self.batches[i].batch_id == *batch {
                return Some(i);
            }
            i += 1;
        }
        None
    }

    /// Enqueues one pending stage-one row per id and one metadata row for
    /// the batch, all or nothing. Fails with a validation error, changing
    /// nothing, where the batch id is taken or the row ids would overflow.
    pub fn enqueue_batch(&mut self, vocabulary_ids: Vec<i64>, batch_id: &str) -> (r: Result<
        i64,
        PipelineError,
    >)
        requires
            old(self).wf(),
        ensures
            final(self).wf(),
            match r {
                Ok(n) => {
                    &&& !old(self).has_batch(batch_id@)
                    &&& old(self).items@.len() + vocabulary_ids@.len() < i64::MAX
                    &&& n == vocabulary_ids@.len()
                    &&& final(self).items@.len() == old(self).items@.len() + n
                    &&& final(self).items@.take(old(self).items@.len() as int) == old(self).items@
                    &&& forall|j: int|
                        old(self).items@.len() <= j < final(self).items@.len() ==> fresh_row(
                            #[trigger] final(self).items@[j],
                            j + 1,
                            vocabulary_ids@[j - old(self).items@.len()],
                            batch_id@,
                        )
                    &&& final(self).batches@.len() == old(self).batches@.len() + 1
                    &&& final(self).batches@.drop_last() == old(self).batches@
                    &&& final(self).batches@.last().batch_id@ == batch_id@
                    &&& final(self).batches@.last().total_items == n
                    &&& final(self).batches@.last().state == BatchState::Pending
                    &&& final(self).checkpoints@ == old(self).checkpoints@
                },
                Err(e) => {
                    &&& e is Validation
                    &&& (old(self).has_batch(batch_id@) || old(self).items@.len()
                        + vocabulary_ids@.len() >= i64::MAX)
                    &&& final(self).items@ == old(self).items@
                    &&& final(self).batches@ == old(self).batches@
                    &&& final(self).checkpoints@ == old(self).checkpoints@
                },
            },
    {
        let batch = String::from_str(batch_id);
        if self.find_batch(&batch).is_some() {
            return Err(PipelineError::Validation(String::from_str("batch already exists")));
        }
        if vocabulary_ids.len() as u128 + self.items.len() as u128 >= i64::MAX as u128 {
            return Err(PipelineError::Validation(String::from_str("queue is full")));
        }
        let now = now_seconds();
        let ghost start = self.items@;
        let n = vocabulary_ids.len();
        let mut k: usize = 0;
        while k < n
            invariant
                self.wf_core(),
                old(self).wf(),
                !old(self).has_batch(batch_id@),
                n == vocabulary_ids@.len(),
                start.len() + n < i64::MAX,
                k <= n,
                self.items@.len() == start.len() + k,
                self.items@.take(start.len() as int) == start,
                forall|j: int|
                    start.len() <= j < self.items@.len() ==> fresh_row(
                        #[trigger] self.items@[j],
                        j + 1,
                        vocabulary_ids@[j - start.len()],
                        batch_id@,
                    ),
                batch@ == batch_id@,
                self.batches@ == old(self).batches@,
                self.checkpoints@ == old(self).checkpoints@,
            decreases n - k,
        {
            let id = self.items.len() as i64 + 1;
            let row = QueueItem {
                id: Some(id),
                vocabulary_id: vocabulary_ids[k],
                batch_id: batch.clone(),
                status: ProcessingStatus::Pending,
                stage: ProcessingStage::Stage1,
                retry_count: 0,
                max_retries: DEFAULT_MAX_RETRIES,
                error_message: None,
                created_at: now,
                updated_at: now,
                started_at: None,
                completed_at: None,
            };
            let ghost before = self.items@;
            self.items.push(row);
            proof {
                assert(self.items@.take(start.len() as int) =~= before.take(start.len() as int));
                assert forall|j: int| start.len() <= j < self.items@.len() implies fresh_row(
                    #[trigger] self.items@[j],
                    j + 1,
                    vocabulary_ids@[j - start.len()],
                    batch_id@,
                ) by {
                    if j < before.len() {
                        assert(self.items@[j] == before[j]);
                    }
                }
            }
            k += 1;
        }
        let meta = BatchMetadata {
            batch_id: batch,
            total_items: n,
            completed_items: 0,
            failed_items: 0,
            quarantined_items: 0,
            state: BatchState::Pending,
            start_time: now,
            end_time: None,
        };
        let ghost old_batches = self.batches@;
        self.batches.push(meta);
        proof {
            assert(self.batches@.drop_last() =~= old_batches);
            let added = self.items@.skip(start.len() as int);
            assert(self.items@ =~= start + added);
            assert forall|i: int| 0 <= i < added.len() implies (#[trigger] added[i]).batch_id@ == batch_id@ by {
                assert(added[i] == self.items@[start.len() + i]);
            }
            assert forall|i: int| 0 <= i < start.len() implies (#[trigger] start[i]).batch_id@ != batch_id@ by {
                assert(old(self).has_batch(start[i].batch_id@));
            }
            lemma_count_absent(start, batch_id@);
            lemma_count_concat(start, added, batch_id@);
            lemma_count_uniform(added, batch_id@, batch_id@);
            assert forall|j: int| 0 <= j < self.batches@.len() implies (#[trigger] self.batches@[j]).total_items
                == count_batch(self.items@, self.batches@[j].batch_id@) by {
                let x = self.batches@[j].batch_id@;
                lemma_count_concat(start, added, x);
                lemma_count_uniform(added, batch_id@, x);
                if j < old_batches.len() {
                    assert(self.batches@[j] == old_batches[j]);
                    assert(old(self).has_batch(x));
                    assert(x != batch_id@);
                }
            }
            assert forall|i: int| 0 <= i < self.items@.len() implies self.has_batch(
                (#[trigger] self.items@[i]).batch_id@) by {
                if i < start.len() {
                    assert(self.items@[i] == start[i]);
                    assert(old(self).has_batch(start[i].batch_id@));
                    let j = choose|j: int| 0 <= j < old_batches.len() && (#[trigger] old_batches[j]).batch_id@ == start[i].batch_id@;
                    assert(self.batches@[j] == old_batches[j]);
                } else {
                    assert(self.items@[i] == added[i - start.len()]);
                    assert(self.batches@[old_batches.len() as int].batch_id@ == batch_id@);
                }
            }
            assert forall|i: int, j: int| 0 <= i < j < self.batches@.len() implies (
            #[trigger] self.batches@[i]).batch_id@ != (#[trigger] self.batches@[j]).batch_id@ by {
                if j == old_batches.len() {
                    assert(self.batches@[i] == old_batches[i]);
                }
            }
        }
        Ok(n as i64)
    }

    /// Whether the row named `id` exists and may still change: quarantined
    /// rows are final.
    pub open spec fn can_transition(&self, id: i64) -> bool {
        self.has_row(id) && self.row(id).status != ProcessingStatus::Quarantined
    }

    fn row_index(&self, item_id: i64) -> (r: Option<usize>)
        requires
            self.wf(),
        ensures
            match r {
                Some(i) => self.can_transition(item_id) && i == item_id - 1,
                None => !self.can_transition(item_id),
            },
    {
        if item_id < 1 || item_id as u128 > self.items.len() as u128 {
            return None;
        }
        let i = (item_id - 1) as usize;
        if self.items[i].status == ProcessingStatus::Quarantined {
            return None;
        }
        Some(i)
    }

    fn refresh_batch(&mut self, batch: &String, now: i64)
        requires
            old(self).wf(),
        ensures
            final(self).wf(),
            final(self).items@ == old(self).items@,
            final(self).checkpoints@ == old(self).checkpoints@,
            batches_refreshed(old(self).batches@, final(self).batches@, old(self).items@, batch@, true),
    {
        match self.find_batch(batch) {
            None => {},
            Some(j) => {
                let c = count_rows(&self.items, batch);
                let state = if c.pending == 0 && c.in_progress == 0 {
                    if c.failed > 0 || c.quarantined > 0 {
                        BatchState::Partial
                    } else {
                        BatchState::Completed
                    }
                } else {
                    BatchState::InProgress
                };
                let ghost before = self.batches@;
                let ghost st = *self;
                self.batches[j].completed_items = c.completed;
                self.batches[j].failed_items = c.failed;
                self.batches[j].quarantined_items = c.quarantined;
                self.batches[j].state = state;
                if state != BatchState::InProgress {
                    self.batches[j].end_time = Some(now);
                }
                proof {
                    assert forall|i: int, k: int| 0 <= i < k < self.batches@.len() implies (
                    #[trigger] self.batches@[i]).batch_id@ != (#[trigger] self.batches@[k]).batch_id@ by {
                        assert(before[i].batch_id == self.batches@[i].batch_id);
                        assert(before[k].batch_id == self.batches@[k].batch_id);
                    }
                    assert forall|i: int| 0 <= i < before.len() && i != j implies (#[trigger] before[i]).batch_id@ != batch@ by {
                        if i < j {
                            assert(before[i].batch_id@ != before[j as int].batch_id@);
                        } else {
                            assert(before[j as int].batch_id@ != before[i].batch_id@);
                        }
                    }
                    lemma_totals_kept(st, *self);
                }
            },
        }
    }

    /// Sets the status and error message of a row. Entering `InProgress`
    /// stamps `started_at`, entering `Completed` stamps `completed_at`;
    /// reaching a terminal status refreshes the batch's metadata row. Fails
    /// with a validation error, changing nothing, where no such row exists or
    /// the row is quarantined.
    pub fn update_status(
        &mut self,
        item_id: i64,
        status: ProcessingStatus,
        error_message: Option<String>,
    ) -> (r: Result<(), PipelineError>)
        requires
            old(self).wf(),
        ensures
            final(self).wf(),
            final(self).checkpoints@ == old(self).checkpoints@,
            match r {
                Ok(()) => {
                    let o = old(self).row(item_id);
                    let n = final(self).row(item_id);
                    &&& old(self).can_transition(item_id)
                    &&& others_unchanged(old(self).items@, final(self).items@, item_id - 1)
                    &&& same_identity(o, n)
                    &&& n.status == status
                    &&& n.error_message == error_message
                    &&& n.stage == o.stage
                    &&& n.retry_count == o.retry_count
                    &&& (if status == ProcessingStatus::InProgress {
                        n.started_at is Some
                    } else {
                        n.started_at == o.started_at
                    })
                    &&& (if status == ProcessingStatus::Completed {
                        n.completed_at is Some
                    } else {
                        n.completed_at == o.completed_at
                    })
                    &&& batches_refreshed(
                        old(self).batches@,
                        final(self).batches@,
                        final(self).items@,
                        o.batch_id@,
                        is_terminal(status),
                    )
                },
                Err(e) => {
                    &&& e is Validation
                    &&& !old(self).can_transition(item_id)
                    &&& final(self).items@ == old(self).items@
                    &&& final(self).batches@ == old(self).batches@
                },
            },
    {
        let i = match self.row_index(item_id) {
            Some(i) => i,
            None => {
                return Err(PipelineError::Validation(String::from_str("no such row, or row is quarantined")));
            },
        };
        let ghost st0 = *self;
        let now = now_seconds();
        self.items[i].status = status;
        self.items[i].error_message = error_message;
        self.items[i].updated_at = now;
        if status == ProcessingStatus::InProgress {
            self.items[i].started_at = Some(now);
        }
        if status == ProcessingStatus::Completed {
            self.items[i].completed_at = Some(now);
        }
        proof {
            lemma_totals_kept(st0, *self);
        }
        if status == ProcessingStatus::Completed || status == ProcessingStatus::Failed || status
            == ProcessingStatus::Quarantined {
            let batch = self.items[i].batch_id.clone();
            self.refresh_batch(&batch, now);
        }
        Ok(())
    }

    /// Completes the current stage of a row: stage one leads to (stage two,
    /// pending), stage two to (complete, completed). Fails with a validation
    /// error, changing nothing, where the row is complete already, missing or
    /// quarantined.
    pub fn complete_stage(&mut self, item_id: i64) -> (r: Result<ProcessingStage, PipelineError>)
        requires
            old(self).wf(),
        ensures
            final(self).wf(),
            final(self).checkpoints@ == old(self).checkpoints@,
            final(self).batches@ == old(self).batches@,
            match r {
                Ok(st) => {
                    let o = old(self).row(item_id);
                    let n = final(self).row(item_id);
                    &&& old(self).can_transition(item_id)
                    &&& next_stage(o.stage) == Some((st, n.status))
                    &&& n.stage == st
                    &&& others_unchanged(old(self).items@, final(self).items@, item_id - 1)
                    &&& same_identity(o, n)
                    &&& n.retry_count == o.retry_count
                    &&& n.error_message == o.error_message
                    &&& n.started_at == o.started_at
                    &&& (if st == ProcessingStage::Complete {
                        n.completed_at is Some
                    } else {
                        n.completed_at == o.completed_at
                    })
                },
                Err(e) => {
                    &&& e is Validation
                    &&& (!old(self).can_transition(item_id) || next_stage(
                        old(self).row(item_id).stage,
                    ) is None)
                    &&& final(self).items@ == old(self).items@
                },
            },
    {
        let i = match self.row_index(item_id) {
            Some(i) => i,
            None => {
                return Err(PipelineError::Validation(String::from_str("no such row, or row is quarantined")));
            },
        };
        let ghost st0 = *self;
        let now = now_seconds();
        match self.items[i].stage {
            ProcessingStage::Stage1 => {
                self.items[i].stage = ProcessingStage::Stage2;
                self.items[i].status = ProcessingStatus::Pending;
                self.items[i].updated_at = now;
                proof {
                    lemma_totals_kept(st0, *self);
                }
                Ok(ProcessingStage::Stage2)
            },
            ProcessingStage::Stage2 => {
                self.items[i].stage = ProcessingStage::Complete;
                self.items[i].status = ProcessingStatus::Completed;
                self.items[i].completed_at = Some(now);
                self.items[i].updated_at = now;
                proof {
                    lemma_totals_kept(st0, *self);
                }
                Ok(ProcessingStage::Complete)
            },
            ProcessingStage::Complete => Err(
                PipelineError::Validation(String::from_str("invalid stage transition from: complete")),
            ),
        }
    }

    /// Counts a failed attempt of a row. Returns `true` and sets the row
    /// pending while attempts remain; returns `false` and quarantines the row
    /// when the count reaches its budget. Fails with a validation error,
    /// changing nothing, where the row is missing or quarantined.
    pub fn increment_retry(&mut self, item_id: i64) -> (r: Result<bool, PipelineError>)
        requires
            old(self).wf(),
        ensures
            final(self).wf(),
            final(self).checkpoints@ == old(self).checkpoints@,
            final(self).batches@ == old(self).batches@,
            match r {
                Ok(b) => {
                    let o = old(self).row(item_id);
                    let n = final(self).row(item_id);
                    &&& old(self).can_transition(item_id)
                    &&& n.retry_count == o.retry_count + 1
                    &&& b == retry_eligible(o.retry_count as int, o.max_retries as int)
                    &&& n.status == status_after_failure(o.retry_count as int, o.max_retries as int)
                    &&& others_unchanged(old(self).items@, final(self).items@, item_id - 1)
                    &&& same_identity(o, n)
                    &&& n.stage == o.stage
                    &&& n.error_message == o.error_message
                    &&& n.started_at == o.started_at
                    &&& n.completed_at == o.completed_at
                },
                Err(e) => {
                    &&& e is Validation
                    &&& !old(self).can_transition(item_id)
                    &&& final(self).items@ == old(self).items@
                },
            },
    {
        let i = match self.row_index(item_id) {
            Some(i) => i,
            None => {
                return Err(PipelineError::Validation(String::from_str("no such row, or row is quarantined")));
            },
        };
        let ghost st0 = *self;
        let now = now_seconds();
        let count = self.items[i].retry_count + 1;
        self.items[i].retry_count = count;
        self.items[i].updated_at = now;
        if count >= self.items[i].max_retries {
            self.items[i].status = ProcessingStatus::Quarantined;
            proof {
                lemma_totals_kept(st0, *self);
            }
            Ok(false)
        } else {
            self.items[i].status = ProcessingStatus::Pending;
            proof {
                lemma_totals_kept(st0, *self);
            }
            Ok(true)
        }
    }

    /// The oldest pending row, of the given batch or of any batch.
    pub fn get_next_pending(&self, batch_id: Option<&str>) -> (r: Option<QueueItem>)
        ensures
            match r {
                Some(x) => exists|i: int|
                    0 <= i < self.items@.len() && x == #[trigger] self.items@[i] && pending_in(
                        self.items@[i],
                        opt_str_view(batch_id),
                    ) && forall|j: int|
                        0 <= j < i ==> !pending_in(#[trigger] self.items@[j], opt_str_view(batch_id)),
                None => forall|i: int|
                    0 <= i < self.items@.len() ==> !pending_in(
                        #[trigger] self.items@[i],
                        opt_str_view(batch_id),
                    ),
            },
    {
        let batch = match batch_id {
            Some(b) => Some(String::from_str(b)),
            None => None,
        };
        let mut i: usize = 0;
        while i < self.items.len()
            invariant
                i <= self.items@.len(),
                opt_view_eq(batch, opt_str_view(batch_id)),
                forall|j: int|
                    0 <= j < i ==> !pending_in(#[trigger] self.items@[j], opt_str_view(batch_id)),
            decreases self.items.len() - i,
        {
            let matches_batch = match &batch {
                Some(b) => self.items[i].batch_id == *b,
                None => true,
            };
            if self.items[i].status == ProcessingStatus::Pending && matches_batch {
                return Some(self.items[i].duplicate());
            }
            i += 1;
        }
        None
    }

    /// The first row of `batch_id` that holds `vocabulary_id`, by id.
    pub fn find_row(&self, batch_id: &str, vocabulary_id: i64) -> (r: Option<i64>)
        requires
            self.wf(),
        ensures
            match r {
                Some(id) => self.has_row(id) && self.row(id).batch_id@ == batch_id@ && self.row(
                    id,
                ).vocabulary_id == vocabulary_id,
                None => forall|i: int|
                    0 <= i < self.items@.len() ==> !((#[trigger] self.items@[i]).batch_id@
                        == batch_id@ && self.items@[i].vocabulary_id == vocabulary_id),
            },
    {
        let batch = String::from_str(batch_id);
        let mut i: usize = 0;
        while i < self.items.len()
            invariant
                self.wf(),
                i <= self.items@.len(),
                batch@ == batch_id@,
                forall|j: int|
                    0 <= j < i ==> !((#[trigger] self.items@[j]).batch_id@ == batch_id@
                        && self.items@[j].vocabulary_id == vocabulary_id),
            decreases self.items.len() - i,
        {
            if self.items[i].batch_id == batch && self.items[i].vocabulary_id == vocabulary_id {
                return Some(i as i64 + 1);
            }
            i += 1;
        }
        None
    }

    /// The rows of a batch that are neither completed nor quarantined, in
    /// row order. Rows left in progress by an interrupted run are among them:
    /// they are treated as resumable.
    pub fn get_incomplete_items(&self, batch_id: &str) -> (r: Vec<QueueItem>)
        ensures
            r@ == resumable_rows(self.items@, batch_id@),
    {
        let batch = String::from_str(batch_id);
        let mut r: Vec<QueueItem> = Vec::new();
        let mut i: usize = 0;
        while i < self.items.len()
            invariant
                i <= self.items@.len(),
                batch@ == batch_id@,
                r@ == resumable_rows(self.items@.take(i as int), batch_id@),
            decreases self.items.len() - i,
        {
            assert(self.items@.take(i + 1).drop_last() =~= self.items@.take(i as int));
            let it = &self.items[i];
            if it.batch_id == batch && it.status != ProcessingStatus::Completed && it.status
                != ProcessingStatus::Quarantined {
                r.push(it.duplicate());
            }
            i += 1;
        }
        assert(self.items@.take(self.items@.len() as int) =~= self.items@);
        r
    }
}

impl QueueRepository {
    /// The progress of a batch at time `now`: its rows counted by status
    /// (their number is the metadata row's total),
    /// the time elapsed since it started, and the expected completion time.
    /// Fails with a validation error where no such batch exists.
    pub fn progress_at(&self, batch_id: &str, now: i64) -> (r: Result<BatchProgress, PipelineError>)
        requires
            self.wf(),
        ensures
            match r {
                Ok(p) => {
                    let b = batch_id@;
                    &&& self.has_batch(b)
                    &&& p.batch_id@ == b
                    &&& p.total_items == count_batch(self.items@, b)
                    &&& p.completed_items == count_status(self.items@, b, ProcessingStatus::Completed)
                    &&& p.failed_items == count_status(self.items@, b, ProcessingStatus::Failed)
                    &&& p.quarantined_items == count_status(
                        self.items@,
                        b,
                        ProcessingStatus::Quarantined,
                    )
                    &&& p.pending_items == count_status(self.items@, b, ProcessingStatus::Pending)
                    &&& p.in_progress_items == count_status(
                        self.items@,
                        b,
                        ProcessingStatus::InProgress,
                    )
                    &&& p.counts_add_up()
                    &&& exists|j: int|
                        0 <= j < self.batches@.len() && (#[trigger] self.batches@[j]).batch_id@ == b
                            && p.start_time == self.batches@[j].start_time && p.total_items
                            == self.batches@[j].total_items
                    &&& p.elapsed_seconds == if now as int - p.start_time as int > 0 {
                        if now as int - p.start_time as int > i64::MAX {
                            i64::MAX
                        } else {
                            (now - p.start_time) as i64
                        }
                    } else {
                        0
                    }
                    &&& p.estimated_completion == eta_of(
                        p.pending_items as int,
                        p.completed_items as int,
                        p.elapsed_seconds as int,
                        now as int,
                    )
                },
                Err(e) => e is Validation && !self.has_batch(batch_id@),
            },
    {
        let batch = String::from_str(batch_id);
        let j = match self.find_batch(&batch) {
            Some(j) => j,
            None => {
                return Err(PipelineError::Validation(String::from_str("batch not found")));
            },
        };
        let start = self.batches[j].start_time;
        let c = count_rows(&self.items, &batch);
        proof {
            lemma_status_counts_partition(self.items@, batch@);
        }
        let diff = now as i128 - start as i128;
        let elapsed: i64 = if diff > 0 {
            if diff > i64::MAX as i128 {
                i64::MAX
            } else {
                diff as i64
            }
        } else {
            0
        };
        let mut p = BatchProgress {
            batch_id: batch,
            total_items: c.total,
            completed_items: c.completed,
            failed_items: c.failed,
            quarantined_items: c.quarantined,
            pending_items: c.pending,
            in_progress_items: c.in_progress,
            start_time: start,
            elapsed_seconds: elapsed,
            estimated_completion: None,
        };
        p.estimate_completion(now);
        Ok(p)
    }

    /// The progress of a batch now; see `progress_at`.
    pub fn get_batch_progress(&self, batch_id: &str) -> (r: Result<BatchProgress, PipelineError>)
        requires
            self.wf(),
        ensures
            match r {
                Ok(p) => {
                    let b = batch_id@;
                    &&& self.has_batch(b)
                    &&& p.batch_id@ == b
                    &&& p.total_items == count_batch(self.items@, b)
                    &&& p.completed_items == count_status(self.items@, b, ProcessingStatus::Completed)
                    &&& p.failed_items == count_status(self.items@, b, ProcessingStatus::Failed)
                    &&& p.quarantined_items == count_status(
                        self.items@,
                        b,
                        ProcessingStatus::Quarantined,
                    )
                    &&& p.pending_items == count_status(self.items@, b, ProcessingStatus::Pending)
                    &&& p.in_progress_items == count_status(
                        self.items@,
                        b,
                        ProcessingStatus::InProgress,
                    )
                    &&& p.counts_add_up()
                    &&& exists|j: int|
                        0 <= j < self.batches@.len() && (#[trigger] self.batches@[j]).batch_id@ == b
                            && p.total_items == self.batches@[j].total_items
                    &&& p.estimated_completion is Some ==> p.completed_items > 0 && p.pending_items > 0
                },
                Err(e) => e is Validation && !self.has_batch(batch_id@),
            },
    {
        let now = now_seconds();
        self.progress_at(batch_id, now)
    }

    /// Appends an entry to the checkpoint log. Fails with a queue error,
    /// changing nothing, only where the log is full.
    pub fn save_checkpoint(
        &mut self,
        batch_id: &str,
        last_processed_id: i64,
        stage: ProcessingStage,
        checkpoint_data: String,
    ) -> (r: Result<(), PipelineError>)
        requires
            old(self).wf(),
        ensures
            final(self).wf(),
            final(self).items@ == old(self).items@,
            final(self).batches@ == old(self).batches@,
            match r {
                Ok(()) => {
                    let c = final(self).checkpoints@.last();
                    &&& final(self).checkpoints@.len() == old(self).checkpoints@.len() + 1
                    &&& final(self).checkpoints@.drop_last() == old(self).checkpoints@
                    &&& c.id == Some((old(self).checkpoints@.len() + 1) as i64)
                    &&& c.batch_id@ == batch_id@
                    &&& c.last_processed_id == last_processed_id
                    &&& c.stage == stage
                    &&& c.checkpoint_data == checkpoint_data
                },
                Err(e) => {
                    &&& e is Queue
                    &&& old(self).checkpoints@.len() + 1 >= i64::MAX
                    &&& final(self).checkpoints@ == old(self).checkpoints@
                },
            },
    {
        if self.checkpoints.len() as u128 + 1 >= i64::MAX as u128 {
            return Err(PipelineError::Queue(String::from_str("checkpoint log is full")));
        }
        let cp = ProcessingCheckpoint {
            id: Some(self.checkpoints.len() as i64 + 1),
            batch_id: String::from_str(batch_id),
            last_processed_id,
            stage,
            checkpoint_data,
            created_at: now_seconds(),
        };
        let ghost before = self.checkpoints@;
        self.checkpoints.push(cp);
        assert(self.checkpoints@.drop_last() =~= before);
        Ok(())
    }

    /// The most recent checkpoint of a batch, if any.
    pub fn get_latest_checkpoint(&self, batch_id: &str) -> (r: Option<ProcessingCheckpoint>)
        ensures
            match r {
                Some(c) => exists|i: int|
                    0 <= i < self.checkpoints@.len() && c == #[trigger] self.checkpoints@[i]
                        && c.batch_id@ == batch_id@ && forall|j: int|
                        i < j < self.checkpoints@.len() ==> (#[trigger] self.checkpoints@[j]).batch_id@
                            != batch_id@,
                None => forall|i: int|
                    0 <= i < self.checkpoints@.len() ==> (#[trigger] self.checkpoints@[i]).batch_id@
                        != batch_id@,
            },
    {
        let batch = String::from_str(batch_id);
        let mut i: usize = self.checkpoints.len();
        while i > 0
            invariant
                i <= self.checkpoints@.len(),
                batch@ == batch_id@,
                forall|j: int|
                    i <= j < self.checkpoints@.len() ==> (#[trigger] self.checkpoints@[j]).batch_id@
                        != batch_id@,
            decreases i,
        {
            i -= 1;
            let c = &self.checkpoints[i];
            if c.batch_id == batch {
                return Some(
                    ProcessingCheckpoint {
                        id: c.id,
                        batch_id: c.batch_id.clone(),
                        last_processed_id: c.last_processed_id,
                        stage: c.stage,
                        checkpoint_data: c.checkpoint_data.clone(),
                        created_at: c.created_at,
                    },
                );
            }
        }
        None
    }
}

/// With the default budget of three, a row's first two failures leave it
/// pending and eligible for a retry; the third quarantines it with a retry
/// count of three.
pub proof fn lemma_three_failures_quarantine(max_retries: int)
    requires
        max_retries == DEFAULT_MAX_RETRIES,
    ensures
        retry_eligible(0, max_retries),
        status_after_failure(0, max_retries) == ProcessingStatus::Pending,
        retry_eligible(1, max_retries),
        status_after_failure(1, max_retries) == ProcessingStatus::Pending,
        !retry_eligible(2, max_retries),
        status_after_failure(2, max_retries) == ProcessingStatus::Quarantined,
        2 + 1 == max_retries,
{
}

/// Completing a stage of a row that is not quarantined is always legal from
/// stage one, giving (stage two, pending), and from stage two, giving
/// (complete, completed), and never legal from complete.
pub proof fn lemma_stage_legality(store: QueueRepository, id: i64)
    requires
        store.wf(),
        store.can_transition(id),
    ensures
        store.row(id).stage == ProcessingStage::Stage1 ==> next_stage(store.row(id).stage) == Some(
            (ProcessingStage::Stage2, ProcessingStatus::Pending),
        ),
        store.row(id).stage == ProcessingStage::Stage2 ==> next_stage(store.row(id).stage) == Some(
            (ProcessingStage::Complete, ProcessingStatus::Completed),
        ),
        store.row(id).stage == ProcessingStage::Complete ==> next_stage(store.row(id).stage) is None,
{
}

/// The counts of any batch add up to its number of rows, and the batch is
/// complete exactly when none of its rows is pending or in progress.
pub proof fn lemma_progress_arithmetic(p: BatchProgress, items: Seq<QueueItem>, batch: Seq<char>)
    requires
        p.total_items == count_batch(items, batch),
        p.completed_items == count_status(items, batch, ProcessingStatus::Completed),
        p.failed_items == count_status(items, batch, ProcessingStatus::Failed),
        p.quarantined_items == count_status(items, batch, ProcessingStatus::Quarantined),
        p.pending_items == count_status(items, batch, ProcessingStatus::Pending),
        p.in_progress_items == count_status(items, batch, ProcessingStatus::InProgress),
    ensures
        p.counts_add_up(),
{
    lemma_status_counts_partition(items, batch);
}

/// An optional string and an optional view that agree.
pub open spec fn opt_view_eq(a: Option<String>, b: Option<Seq<char>>) -> bool {
    match (a, b) {
        (Some(x), Some(y)) => x@ == y,
        (None, None) => true,
        _ => false,
    }
}

} // verus!

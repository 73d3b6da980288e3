//! The pipeline as a whole: enqueue or resume a batch, run it, and turn its
//! successes into export records.
use crate::batch::{BatchProcessor, BatchResult};
use crate::cache::{count_stage1_cached, count_stage2_cached, CacheManager, CacheStats, CacheWarmupStats};
use crate::error::PipelineError;
use crate::export::{export_records, ExportStats};
use crate::monitoring::MetricsCollector;
use crate::queue::{count_batch, count_status, BatchProgress, ProcessingStatus, QueueRepository};
use crate::vocabulary::{Stage1Result, Stage2Result, VocabularyItem};
use vstd::prelude::*;

verus! {

/// How a pipeline is set up.
#[derive(Debug, Clone)]
pub struct PipelineConfig {
    pub database_url: String,
    pub cache_dir: String,
    pub max_concurrent: usize,
    pub batch_size: usize,
    pub enable_metrics: bool,
    pub checkpoint_interval: usize,
}

impl Default for PipelineConfig {
    fn default() -> (r: Self)
        ensures
            r.database_url@ == "sqlite:pipeline.db"@,
            r.cache_dir@ == ".cache"@,
            r.max_concurrent == 5,
            r.batch_size == 10,
            r.enable_metrics,
            r.checkpoint_interval == 10,
    {
        PipelineConfig {
            database_url: String::from_str("sqlite:pipeline.db"),
            cache_dir: String::from_str(".cache"),
            max_concurrent: 5,
            batch_size: 10,
            enable_metrics: true,
            checkpoint_interval: 10,
        }
    }
}

/// `x + n`, saturating.
pub open spec fn sat_plus(x: usize, n: int) -> usize {
    if x + n > usize::MAX {
        usize::MAX
    } else {
        (x + n) as usize
    }
}

/// The outcome of one pipeline run.
#[derive(Debug, Clone)]
pub struct ProcessingResult {
    pub batch_id: String,
    pub total_items: usize,
    pub successful_items: usize,
    pub failed_items: usize,
    pub cache_hits: usize,
    pub export_stats: ExportStats,
    pub processing_time_secs: u64,
}

/// The pipeline: the batch processor, the run metrics and the settings.
pub struct Pipeline {
    pub processor: BatchProcessor,
    pub metrics_collector: MetricsCollector,
    pub config: PipelineConfig,
}

impl Pipeline {
    pub open spec fn wf(&self) -> bool {
        self.processor.wf() && self.processor.limiter.in_use == 0
    }

    /// An empty pipeline with the given settings.
    pub fn new(config: PipelineConfig) -> (r: Self)
        ensures
            r.wf(),
            r.processor.limiter.capacity == config.max_concurrent,
            r.processor.queue.items@.len() == 0,
            r.processor.queue.batches@.len() == 0,
    {
        let processor = BatchProcessor::new(CacheManager::new(), QueueRepository::new(), config.max_concurrent);
        Pipeline { processor, metrics_collector: MetricsCollector::new(), config }
    }

    /// Counts the batch's items as processed (successes, then failures) and
    /// its fully cached items as hits, the rest as misses.
    pub fn update_metrics(&mut self, batch_result: &BatchResult)
        requires
            batch_result.cache_hits <= batch_result.total_processed,
        ensures
            final(self).processor == old(self).processor,
            final(self).config == old(self).config,
            final(self).metrics_collector.metrics.items_processed == sat_plus(
                old(self).metrics_collector.metrics.items_processed,
                (batch_result.successful@.len() + batch_result.failed@.len()) as int,
            ),
            final(self).metrics_collector.metrics.cache_hits == sat_plus(
                old(self).metrics_collector.metrics.cache_hits,
                batch_result.cache_hits as int,
            ),
            final(self).metrics_collector.metrics.cache_misses == sat_plus(
                old(self).metrics_collector.metrics.cache_misses,
                batch_result.total_processed - batch_result.cache_hits,
            ),
    {
        let ms = if batch_result.processing_time_secs > u64::MAX / 1000 {
            u64::MAX
        } else {
            batch_result.processing_time_secs * 1000
        };
        let per_item = if batch_result.total_processed > 0 {
            ms / batch_result.total_processed as u64
        } else {
            0
        };
        let mut i: usize = 0;
        while i < batch_result.successful.len()
            invariant
                self.processor == old(self).processor,
                self.config == old(self).config,
                self.metrics_collector.metrics.items_processed == sat_plus(
                    old(self).metrics_collector.metrics.items_processed,
                    i as int,
                ),
                self.metrics_collector.metrics.cache_hits == old(self).metrics_collector.metrics.cache_hits,
                self.metrics_collector.metrics.cache_misses == old(self).metrics_collector.metrics.cache_misses,
                i <= batch_result.successful@.len(),
            decreases batch_result.successful.len() - i,
        {
            self.metrics_collector.record_item_processed(true, per_item);
            i += 1;
        }
        let mut j: usize = 0;
        while j < batch_result.failed.len()
            invariant
                self.processor == old(self).processor,
                self.config == old(self).config,
                self.metrics_collector.metrics.items_processed == sat_plus(
                    old(self).metrics_collector.metrics.items_processed,
                    batch_result.successful@.len() + j,
                ),
                self.metrics_collector.metrics.cache_hits == old(self).metrics_collector.metrics.cache_hits,
                self.metrics_collector.metrics.cache_misses == old(self).metrics_collector.metrics.cache_misses,
                j <= batch_result.failed@.len(),
            decreases batch_result.failed.len() - j,
        {
            self.metrics_collector.record_item_processed(false, per_item);
            j += 1;
        }
        let mut k: usize = 0;
        while k < batch_result.cache_hits
            invariant
                self.processor == old(self).processor,
                self.config == old(self).config,
                self.metrics_collector.metrics.items_processed == sat_plus(
                    old(self).metrics_collector.metrics.items_processed,
                    (batch_result.successful@.len() + batch_result.failed@.len()) as int,
                ),
                self.metrics_collector.metrics.cache_hits == sat_plus(
                    old(self).metrics_collector.metrics.cache_hits,
                    k as int,
                ),
                self.metrics_collector.metrics.cache_misses == old(self).metrics_collector.metrics.cache_misses,
                k <= batch_result.cache_hits,
            decreases batch_result.cache_hits - k,
        {
            self.metrics_collector.record_cache_hit();
            k += 1;
        }
        let misses = batch_result.total_processed - batch_result.cache_hits;
        let mut m: usize = 0;
        while m < misses
            invariant
                self.processor == old(self).processor,
                self.config == old(self).config,
                self.metrics_collector.metrics.items_processed == sat_plus(
                    old(self).metrics_collector.metrics.items_processed,
                    (batch_result.successful@.len() + batch_result.failed@.len()) as int,
                ),
                self.metrics_collector.metrics.cache_hits == sat_plus(
                    old(self).metrics_collector.metrics.cache_hits,
                    batch_result.cache_hits as int,
                ),
                self.metrics_collector.metrics.cache_misses == sat_plus(
                    old(self).metrics_collector.metrics.cache_misses,
                    m as int,
                ),
                m <= misses,
                misses == batch_result.total_processed - batch_result.cache_hits,
            decreases misses - m,
        {
            self.metrics_collector.record_cache_miss();
            m += 1;
        }
    }

    /// Runs a batch and returns its outcome with the export records of its
    /// successes, in order. It fails only where an item of a new batch has no
    /// id, the batch id is taken, the row ids would overflow, the limiter has
    /// no slots or the checkpoint log is full. A new batch (`resume` false) is first enqueued
    /// under `batch_id` with one row per item, which needs every item to have
    /// an id; a resumed batch runs its rows that are neither completed nor
    /// quarantined, taking their items from `items`.
    pub fn process_items<F1, F2>(
        &mut self,
        items: Vec<VocabularyItem>,
        batch_id: &str,
        resume: bool,
        stage1_fn: &F1,
        stage2_fn: &F2,
    ) -> (r: Result<(ProcessingResult, Vec<Vec<String>>), PipelineError>)
        where
            F1: Fn(&VocabularyItem) -> Result<(Stage1Result, String, u64, String), PipelineError>,
            F2: Fn(&VocabularyItem, &Stage1Result) -> Result<
                (Stage2Result, String, u64, String),
                PipelineError,
            >,
        requires
            old(self).wf(),
            forall|it: &VocabularyItem| stage1_fn.requires((it,)),
            forall|it: &VocabularyItem, s1: &Stage1Result| stage2_fn.requires((it, s1)),
        ensures
            final(self).wf(),
            match r {
                Ok((pr, rows)) => {
                    &&& pr.batch_id@ == batch_id@
                    &&& pr.successful_items + pr.failed_items == pr.total_items
                    &&& pr.cache_hits <= pr.successful_items
                    &&& rows@.len() == pr.successful_items
                    &&& pr.export_stats.cards_exported == pr.successful_items
                    &&& !resume ==> pr.total_items == items@.len()
                    &&& !resume ==> forall|k: int|
                        0 <= k < items@.len() ==> (#[trigger] items@[k]).id is Some
                },
                Err(e) => {
                    ||| (!resume && exists|k: int|
                        0 <= k < items@.len() && (#[trigger] items@[k]).id is None)
                    ||| (!resume && old(self).processor.queue.has_batch(batch_id@))
                    ||| (!resume && old(self).processor.queue.items@.len() + items@.len()
                        >= i64::MAX)
                    ||| old(self).processor.limiter.capacity == 0
                    ||| old(self).processor.queue.checkpoints@.len() + 1 >= i64::MAX
                },
            },
    {
        let result = if resume {
            self.processor.resume_batch(batch_id, &items, stage1_fn, stage2_fn)
        } else {
            let mut ids: Vec<i64> = Vec::new();
            let mut i: usize = 0;
            while i < items.len()
                invariant
                    self.wf(),
                    !resume,
                    i <= items@.len(),
                    ids@.len() == i,
                    forall|k: int| 0 <= k < i ==> (#[trigger] items@[k]).id is Some,
                decreases items.len() - i,
            {
                match items[i].id {
                    Some(v) => ids.push(v),
                    None => {
                        assert(items@[i as int].id is None);

                        return Err(PipelineError::Validation(String::from_str("item without an id")));
                    },
                }
                i += 1;
            }
            match self.processor.queue.enqueue_batch(ids, batch_id) {
                Ok(_) => {},
                Err(e) => {
                    return Err(e);
                },
            }
            self.processor.process_batch(items, batch_id, stage1_fn, stage2_fn)
        };
        let batch_result = match result {
            Ok(b) => b,
            Err(e) => {
                return Err(e);
            },
        };
        let (rows, export_stats) = export_records(&batch_result.successful);
        if self.config.enable_metrics {
            self.update_metrics(&batch_result);
        }
        let pr = ProcessingResult {
            batch_id: String::from_str(batch_id),
            total_items: batch_result.total_processed,
            successful_items: batch_result.successful.len(),
            failed_items: batch_result.failed.len(),
            cache_hits: batch_result.cache_hits,
            export_stats,
            processing_time_secs: batch_result.processing_time_secs,
        };
        Ok((pr, rows))
    }

    /// The progress of a batch; see `QueueRepository::get_batch_progress`.
    pub fn get_batch_status(&self, batch_id: &str) -> (r: Result<BatchProgress, PipelineError>)
        requires
            self.wf(),
        ensures
            match r {
                Ok(p) => {
                    let b = batch_id@;
                    let items = self.processor.queue.items@;
                    &&& self.processor.queue.has_batch(b)
                    &&& p.batch_id@ == b
                    &&& p.total_items == count_batch(items, b)
                    &&& p.completed_items == count_status(items, b, ProcessingStatus::Completed)
                    &&& p.failed_items == count_status(items, b, ProcessingStatus::Failed)
                    &&& p.quarantined_items == count_status(items, b, ProcessingStatus::Quarantined)
                    &&& p.pending_items == count_status(items, b, ProcessingStatus::Pending)
                    &&& p.in_progress_items == count_status(items, b, ProcessingStatus::InProgress)
                    &&& p.counts_add_up()
                },
                Err(e) => e is Validation && !self.processor.queue.has_batch(batch_id@),
            },
    {
        self.processor.queue.get_batch_progress(batch_id)
    }

    /// What the cache already holds for `items`; see
    /// `CacheManager::warm_cache_for_batch`.
    pub fn warm_cache(&self, items: &Vec<VocabularyItem>) -> (r: CacheWarmupStats)
        requires
            self.wf(),
        ensures
            r.total_items == items@.len(),
            r.stage1_cached == count_stage1_cached(
                self.processor.cache_manager.stage1.contents(),
                items@,
            ),
            r.stage2_cached == count_stage2_cached(
                self.processor.cache_manager.stage1.contents(),
                self.processor.cache_manager.stage2.contents(),
                items@,
            ),
            r.stage1_missing == r.total_items - r.stage1_cached,
            r.stage2_missing == r.total_items - r.stage2_cached,
    {
        self.processor.cache_manager.warm_cache_for_batch(items)
    }

    /// The cache's statistics; see `CacheManager::get_stats`.
    pub fn get_cache_stats(&self) -> (r: CacheStats)
        ensures
            r == self.processor.cache_manager.get_stats_spec(),
    {
        self.processor.cache_manager.get_stats()
    }
}

} // verus!

use flashcard_core::error::PipelineError;
use flashcard_core::queue::{
    BatchProgress, BatchState, ProcessingStage, ProcessingStatus, QueueItem, QueueRepository,
    DEFAULT_MAX_RETRIES,
};

fn store_with(batch: &str, ids: Vec<i64>) -> QueueRepository {
    let mut q = QueueRepository::new();
    let n = q.enqueue_batch(ids, batch).unwrap();
    assert!(n >= 0);
    q
}

fn progress(total: usize, completed: usize, pending: usize, elapsed: i64) -> BatchProgress {
    BatchProgress {
        batch_id: "b".to_string(),
        total_items: total,
        completed_items: completed,
        failed_items: 0,
        quarantined_items: 0,
        pending_items: pending,
        in_progress_items: total - completed - pending,
        start_time: 0,
        elapsed_seconds: elapsed,
        estimated_completion: None,
    }
}

#[test]
fn test_create_batch() {
    let mut q = QueueRepository::new();
    let n = q.enqueue_batch(vec![1, 2, 3, 4, 5, 6, 7, 8, 9, 10], "batch-1").unwrap();
    assert_eq!(n, 10);
    assert_eq!(q.batches.len(), 1);
    assert_eq!(q.batches[0].total_items, 10);
    assert_eq!(q.batches[0].state, BatchState::Pending);
}

#[test]
fn enqueue_creates_one_pending_row_per_id() {
    let q = store_with("b", vec![11, 12, 13]);
    assert_eq!(q.items.len(), 3);
    for (k, row) in q.items.iter().enumerate() {
        assert_eq!(row.id, Some(k as i64 + 1));
        assert_eq!(row.vocabulary_id, 11 + k as i64);
        assert_eq!(row.status, ProcessingStatus::Pending);
        assert_eq!(row.stage, ProcessingStage::Stage1);
        assert_eq!(row.retry_count, 0);
        assert_eq!(row.max_retries, DEFAULT_MAX_RETRIES);
    }
}

#[test]
fn enqueue_is_all_or_nothing() {
    let mut q = store_with("b", vec![1, 2]);
    let r = q.enqueue_batch(vec![3, 4, 5], "b");
    assert!(matches!(r, Err(PipelineError::Validation(_))));
    assert_eq!(q.items.len(), 2);
    assert_eq!(q.batches.len(), 1);
    let ok = q.enqueue_batch(vec![3, 4, 5], "c").unwrap();
    assert_eq!(ok, 3);
    assert_eq!(q.items.len(), 5);
    assert_eq!(q.batches.len(), 2);
}

#[test]
fn test_add_items_to_batch() {
    let q = store_with("b", vec![1, 2]);
    let p = q.get_batch_progress("b").unwrap();
    assert_eq!(p.total_items, 2);
    assert_eq!(p.completed_items, 0);
}

#[test]
fn retries_quarantine_on_the_third_failure() {
    let mut q = store_with("b", vec![1]);
    assert_eq!(q.increment_retry(1).unwrap(), true);
    assert_eq!(q.items[0].status, ProcessingStatus::Pending);
    assert_eq!(q.items[0].retry_count, 1);
    assert_eq!(q.increment_retry(1).unwrap(), true);
    assert_eq!(q.items[0].status, ProcessingStatus::Pending);
    assert_eq!(q.increment_retry(1).unwrap(), false);
    assert_eq!(q.items[0].status, ProcessingStatus::Quarantined);
    assert_eq!(q.items[0].retry_count, 3);
    assert!(matches!(q.increment_retry(1), Err(PipelineError::Validation(_))));
    assert!(matches!(
        q.update_status(1, ProcessingStatus::Pending, None),
        Err(PipelineError::Validation(_))
    ));
    assert_eq!(q.items[0].retry_count, 3);
}

#[test]
fn complete_stage_follows_the_stages() {
    let mut q = store_with("b", vec![1]);
    assert_eq!(q.complete_stage(1).unwrap(), ProcessingStage::Stage2);
    assert_eq!(q.items[0].status, ProcessingStatus::Pending);
    assert_eq!(q.complete_stage(1).unwrap(), ProcessingStage::Complete);
    assert_eq!(q.items[0].status, ProcessingStatus::Completed);
    assert!(q.items[0].completed_at.is_some());
    assert!(matches!(q.complete_stage(1), Err(PipelineError::Validation(_))));
    assert!(matches!(q.complete_stage(7), Err(PipelineError::Validation(_))));
}

#[test]
fn test_update_item_status() {
    let mut q = store_with("b", vec![1]);
    q.update_status(1, ProcessingStatus::InProgress, None).unwrap();
    assert!(q.items[0].started_at.is_some());
    q.update_status(1, ProcessingStatus::Completed, None).unwrap();
    assert!(q.items[0].completed_at.is_some());
    let p = q.get_batch_progress("b").unwrap();
    assert_eq!(p.completed_items, 1);
    assert_eq!(q.batches[0].completed_items, 1);
    assert_eq!(q.batches[0].state, BatchState::Completed);
    assert!(q.batches[0].end_time.is_some());
}

#[test]
fn test_failed_items_tracking() {
    let mut q = store_with("b", vec![1]);
    for attempt in 1..=3 {
        q.update_status(1, ProcessingStatus::Failed, Some(format!("Attempt {} failed", attempt)))
            .unwrap();
    }
    let p = q.get_batch_progress("b").unwrap();
    assert_eq!(p.failed_items, 1);
    assert_eq!(q.items[0].error_message, Some("Attempt 3 failed".to_string()));
    assert_eq!(q.batches[0].state, BatchState::Partial);
}

#[test]
fn test_get_incomplete_items() {
    let mut q = store_with("b", vec![1, 2, 3]);
    q.update_status(1, ProcessingStatus::Completed, None).unwrap();
    q.update_status(3, ProcessingStatus::Failed, Some("Test error".to_string())).unwrap();
    let incomplete = q.get_incomplete_items("b");
    assert_eq!(incomplete.len(), 2);
    assert!(incomplete.iter().any(|i| i.vocabulary_id == 2));
    assert!(incomplete.iter().any(|i| i.vocabulary_id == 3));
}

#[test]
fn test_checkpoint_operations() {
    let mut q = store_with("b", vec![1, 2, 3, 4, 5]);
    q.save_checkpoint("b", 0, ProcessingStage::Stage1, "{}".to_string()).unwrap();
    q.save_checkpoint("other", 9, ProcessingStage::Stage2, "{}".to_string()).unwrap();
    q.save_checkpoint("b", 3, ProcessingStage::Stage2, "{\"next\":4}".to_string()).unwrap();
    let c = q.get_latest_checkpoint("b").unwrap();
    assert_eq!(c.last_processed_id, 3);
    assert_eq!(c.stage, ProcessingStage::Stage2);
    assert_eq!(c.checkpoint_data, "{\"next\":4}");
    assert_eq!(c.id, Some(3));
    assert!(q.get_latest_checkpoint("missing").is_none());
}

#[test]
fn next_pending_is_oldest_and_scoped() {
    let mut q = store_with("a", vec![1, 2]);
    q.enqueue_batch(vec![3], "b").unwrap();
    q.update_status(1, ProcessingStatus::InProgress, None).unwrap();
    assert_eq!(q.get_next_pending(None).unwrap().id, Some(2));
    assert_eq!(q.get_next_pending(Some("b")).unwrap().id, Some(3));
    q.update_status(2, ProcessingStatus::InProgress, None).unwrap();
    assert!(q.get_next_pending(Some("a")).is_none());
    assert!(q.get_next_pending(Some("zzz")).is_none());
}

#[test]
fn progress_counts_add_up() {
    let mut q = store_with("b", vec![1, 2, 3, 4, 5]);
    q.enqueue_batch(vec![6], "other").unwrap();
    q.update_status(1, ProcessingStatus::Completed, None).unwrap();
    q.update_status(2, ProcessingStatus::Failed, Some("x".to_string())).unwrap();
    q.update_status(3, ProcessingStatus::InProgress, None).unwrap();
    q.update_status(4, ProcessingStatus::Quarantined, None).unwrap();
    let p = q.get_batch_progress("b").unwrap();
    assert_eq!(p.total_items, 5);
    assert_eq!(
        p.completed_items + p.failed_items + p.quarantined_items + p.pending_items + p.in_progress_items,
        p.total_items
    );
    assert_eq!((p.completed_items, p.failed_items, p.quarantined_items), (1, 1, 1));
    assert_eq!((p.pending_items, p.in_progress_items), (1, 1));
    assert!(!p.is_complete());
    assert!(matches!(q.get_batch_progress("nope"), Err(PipelineError::Validation(_))));
}

#[test]
fn progress_percentage_and_eta() {
    let p = progress(4, 1, 3, 10);
    assert_eq!(p.calculate_progress(), 25);
    assert_eq!(progress(0, 0, 0, 0).calculate_progress(), 0);
    let mut e = progress(4, 1, 3, 10);
    e.estimate_completion(1000);
    assert_eq!(e.estimated_completion, Some(1030));
    let mut none = progress(4, 0, 4, 10);
    none.estimate_completion(1000);
    assert_eq!(none.estimated_completion, None);
    assert!(progress(2, 2, 0, 5).is_complete());
}

#[test]
fn progress_at_reports_elapsed_and_eta() {
    let mut q = store_with("b", vec![1, 2, 3]);
    q.batches[0].start_time = 100;
    q.update_status(1, ProcessingStatus::Completed, None).unwrap();
    let p = q.progress_at("b", 110).unwrap();
    assert_eq!(p.elapsed_seconds, 10);
    assert_eq!(p.estimated_completion, Some(130));
}

#[test]
fn queue_item_model_transitions() {
    let mut it = QueueItem::new(5, "b".to_string());
    assert_eq!(it.status, ProcessingStatus::Pending);
    it.start_processing();
    assert_eq!(it.status, ProcessingStatus::InProgress);
    it.complete_stage();
    assert_eq!((it.stage, it.status), (ProcessingStage::Stage2, ProcessingStatus::Pending));
    assert!(it.fail_with_retry("e1".to_string()));
    assert!(it.fail_with_retry("e2".to_string()));
    assert!(!it.fail_with_retry("e3".to_string()));
    assert_eq!(it.status, ProcessingStatus::Quarantined);
    assert_eq!(it.error_message, Some("e3".to_string()));
    let mut other = QueueItem::new(6, "b".to_string());
    other.quarantine("manual".to_string());
    assert_eq!(other.status, ProcessingStatus::Quarantined);
}

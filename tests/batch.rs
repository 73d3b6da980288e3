use flashcard_core::batch::{BatchProcessor, ConcurrencyLimiter, ProcessingProgress};
use flashcard_core::cache::CacheManager;
use flashcard_core::error::PipelineError;
use flashcard_core::pipeline::{Pipeline, PipelineConfig};
use flashcard_core::queue::{ProcessingStage, ProcessingStatus, QueueRepository};
use flashcard_core::vocabulary::{
    CardType, DifficultyLevel, FlashcardContent, FormalityLevel, FrequencyLevel, SemanticAnalysis,
    Stage1Result, Stage2Result, VocabularyItem,
};
use std::cell::Cell;

type S1Out = Result<(Stage1Result, String, u64, String), PipelineError>;
type S2Out = Result<(Stage2Result, String, u64, String), PipelineError>;

fn batch_item(id: i64, korean: &str) -> VocabularyItem {
    VocabularyItem::new(korean.to_string(), format!("meaning of {}", korean), "test".to_string())
        .with_id(id)
}

fn provide_stage1(item: &VocabularyItem) -> S1Out {
    Ok((
        Stage1Result {
            vocabulary_id: item.id.unwrap_or(0),
            request_id: "r1".to_string(),
            cache_key: Stage1Result::generate_cache_key(item),
            semantic_analysis: SemanticAnalysis {
                primary_meaning: item.english.clone(),
                alternative_meanings: vec![],
                connotations: vec![],
                register: "neutral".to_string(),
                usage_contexts: vec![],
                cultural_notes: None,
                frequency: FrequencyLevel::Common,
                formality: FormalityLevel::Neutral,
            },
            created_at: 0,
        },
        "hash".to_string(),
        50,
        "model".to_string(),
    ))
}

fn batch_face(text: &str) -> FlashcardContent {
    FlashcardContent {
        primary_field: text.to_string(),
        secondary_field: None,
        tertiary_field: None,
        example_sentence: None,
        pronunciation_guide: None,
        image_prompt: None,
        mnemonic_aid: None,
        grammar_notes: None,
        cultural_notes: None,
        usage_notes: None,
        difficulty_level: DifficultyLevel::Intermediate,
        frequency_level: FrequencyLevel::Common,
        thematic_tags: vec![],
        grammatical_tags: vec![],
        style_register: None,
    }
}

fn provide_stage2(item: &VocabularyItem, s1: &Stage1Result) -> S2Out {
    Ok((
        Stage2Result {
            vocabulary_id: item.id.unwrap_or(0),
            stage1_cache_key: s1.cache_key.clone(),
            request_id: "r2".to_string(),
            cache_key: Stage2Result::generate_cache_key(item, &s1.cache_key),
            front: batch_face(&item.korean),
            back: batch_face(&s1.semantic_analysis.primary_meaning),
            tags: vec!["test".to_string()],
            deck_name: "deck".to_string(),
            card_type: CardType::Basic,
            tsv_output: String::new(),
            created_at: 0,
        },
        "hash".to_string(),
        80,
        "model".to_string(),
    ))
}

fn processor_with(batch: &str, items: &[VocabularyItem], max_concurrent: usize) -> BatchProcessor {
    let mut queue = QueueRepository::new();
    queue.enqueue_batch(items.iter().map(|i| i.id.unwrap()).collect(), batch).unwrap();
    BatchProcessor::new(CacheManager::new(), queue, max_concurrent)
}

#[test]
fn all_items_succeed() {
    let items = vec![batch_item(1, "하나"), batch_item(2, "둘"), batch_item(3, "셋")];
    let mut p = processor_with("b1", &items, 2);
    let res = p.process_batch(items.clone(), "b1", &provide_stage1, &provide_stage2).unwrap();
    assert_eq!(res.total_processed, 3);
    assert_eq!(res.successful.len(), 3);
    assert_eq!(res.failed.len(), 0);
    assert_eq!(res.cache_hits, 0);
    let progress = p.queue.get_batch_progress("b1").unwrap();
    assert_eq!(progress.completed_items, 3);
    assert_eq!(progress.pending_items, 0);
    assert!(progress.is_complete());
    for row in &p.queue.items {
        assert_eq!(row.stage, ProcessingStage::Complete);
    }
    assert_eq!(p.limiter.in_use, 0);
    assert!(p.queue.get_latest_checkpoint("b1").is_some());
}

#[test]
fn second_run_is_fully_cached() {
    let items = vec![batch_item(1, "하나"), batch_item(2, "둘")];
    let mut p = processor_with("b1", &items, 1);
    p.process_batch(items.clone(), "b1", &provide_stage1, &provide_stage2).unwrap();
    p.queue.enqueue_batch(vec![1, 2], "b2").unwrap();
    let calls = Cell::new(0);
    let counting1 = |it: &VocabularyItem| {
        calls.set(calls.get() + 1);
        provide_stage1(it)
    };
    let res = p.process_batch(items, "b2", &counting1, &provide_stage2).unwrap();
    assert_eq!(res.cache_hits, 2);
    assert_eq!(calls.get(), 0);
}

#[test]
fn one_failure_does_not_stop_the_batch() {
    let items = vec![batch_item(1, "좋음"), batch_item(2, "나쁨"), batch_item(3, "좋음2")];
    let mut p = processor_with("b", &items, 3);
    let flaky = |it: &VocabularyItem| -> S1Out {
        if it.korean == "나쁨" {
            Err(PipelineError::Api { message: "bad request".to_string(), status_code: Some(400) })
        } else {
            provide_stage1(it)
        }
    };
    let res = p.process_batch(items, "b", &flaky, &provide_stage2).unwrap();
    assert_eq!(res.successful.len(), 2);
    assert_eq!(res.failed.len(), 1);
    assert_eq!(res.failed[0].0.korean, "나쁨");
    assert_eq!(res.failed[0].1, "API error: bad request");
    assert_eq!(p.queue.items[1].status, ProcessingStatus::Failed);
    assert_eq!(p.queue.items[1].retry_count, 0);
    assert_eq!(p.queue.items[1].stage, ProcessingStage::Stage1);
}

#[test]
fn three_retryable_failures_quarantine_the_item() {
    let items = vec![batch_item(1, "항상실패")];
    let mut p = processor_with("b", &items, 1);
    let failing = |_: &VocabularyItem| -> S1Out {
        Err(PipelineError::Api { message: "upstream unavailable".to_string(), status_code: Some(503) })
    };
    let first = p.process_batch(items.clone(), "b", &failing, &provide_stage2).unwrap();
    assert_eq!(first.failed.len(), 1);
    assert_eq!(p.queue.items[0].status, ProcessingStatus::Pending);
    p.resume_batch("b", &items, &failing, &provide_stage2).unwrap();
    let third = p.resume_batch("b", &items, &failing, &provide_stage2).unwrap();
    let row = &p.queue.items[0];
    assert_eq!(row.status, ProcessingStatus::Quarantined);
    assert_eq!(row.retry_count, 3);
    assert_eq!(row.error_message, Some("API error: upstream unavailable".to_string()));
    assert_eq!(third.failed.len(), 1);
    assert_eq!(third.failed[0].1, "API error: upstream unavailable");
    let after = p.resume_batch("b", &items, &failing, &provide_stage2).unwrap();
    assert_eq!(after.total_processed, 0);
}

#[test]
fn stage2_failure_keeps_stage1_result() {
    let items = vec![batch_item(1, "단계")];
    let mut p = processor_with("b", &items, 1);
    let failing2 = |_: &VocabularyItem, _: &Stage1Result| -> S2Out {
        Err(PipelineError::Timeout { seconds: 30 })
    };
    let res = p.process_batch(items.clone(), "b", &provide_stage1, &failing2).unwrap();
    assert_eq!(res.failed[0].1, "Processing timeout after 30 seconds");
    assert_eq!(p.queue.items[0].stage, ProcessingStage::Stage2);
    assert_eq!(p.queue.items[0].status, ProcessingStatus::Pending);
    let calls = Cell::new(0);
    let counting1 = |it: &VocabularyItem| {
        calls.set(calls.get() + 1);
        provide_stage1(it)
    };
    let again = p.resume_batch("b", &items, &counting1, &provide_stage2).unwrap();
    assert_eq!(again.successful.len(), 1);
    assert_eq!(calls.get(), 0);
    assert_eq!(p.queue.items[0].status, ProcessingStatus::Completed);
    assert_eq!(p.queue.items[0].stage, ProcessingStage::Complete);
}

#[test]
fn resume_with_nothing_left_is_empty() {
    let items = vec![batch_item(1, "끝")];
    let mut p = processor_with("b", &items, 1);
    p.process_batch(items.clone(), "b", &provide_stage1, &provide_stage2).unwrap();
    let res = p.resume_batch("b", &items, &provide_stage1, &provide_stage2).unwrap();
    assert_eq!(res.total_processed, 0);
    assert!(res.successful.is_empty() && res.failed.is_empty());
    assert_eq!(res.processing_time_secs, 0);
}

#[test]
fn items_without_rows_are_reported_failed() {
    let items = vec![batch_item(1, "있음")];
    let mut p = processor_with("b", &items, 1);
    let stray = vec![batch_item(42, "없음")];
    let res = p.process_batch(stray, "b", &provide_stage1, &provide_stage2).unwrap();
    assert_eq!(res.failed.len(), 1);
    assert_eq!(res.failed[0].1, "item is not enqueued in this batch");
}

#[test]
fn zero_slots_is_a_configuration_error() {
    let items = vec![batch_item(1, "영")];
    let mut p = processor_with("b", &items, 0);
    let r = p.process_batch(items, "b", &provide_stage1, &provide_stage2);
    assert!(matches!(r, Err(PipelineError::Configuration(_))));
    assert_eq!(p.queue.items[0].status, ProcessingStatus::Pending);
}

#[test]
fn limiter_never_exceeds_capacity() {
    let mut l = ConcurrencyLimiter::new(2);
    assert!(l.try_acquire());
    assert!(l.try_acquire());
    assert!(!l.try_acquire());
    assert_eq!(l.in_use, 2);
    l.release();
    assert!(l.try_acquire());
    assert!(l.in_use <= l.capacity);
}

#[test]
fn progress_eta_from_rate() {
    let mut p = ProcessingProgress::new(10, 100);
    assert_eq!(p.eta(110), None);
    p.record(true, true);
    p.record(false, false);
    assert_eq!((p.completed, p.cached, p.failed), (2, 1, 1));
    assert_eq!(p.eta(110), Some(40));
}

#[test]
fn pipeline_runs_and_exports() {
    let mut pipeline = Pipeline::new(PipelineConfig::default());
    let items = vec![batch_item(1, "가"), batch_item(2, "나")];
    let (result, rows) = pipeline
        .process_items(items, "run-1", false, &provide_stage1, &provide_stage2)
        .unwrap();
    assert_eq!(result.total_items, 2);
    assert_eq!(result.successful_items, 2);
    assert_eq!(rows.len(), 2);
    assert_eq!(rows[0][0], "1");
    assert_eq!(rows[0][1], "가");
    assert_eq!(result.export_stats.intermediate_cards, 2);
    assert_eq!(pipeline.metrics_collector.get_metrics().items_processed, 2);
    assert_eq!(pipeline.metrics_collector.get_metrics().cache_misses, 2);
    let status = pipeline.get_batch_status("run-1").unwrap();
    assert!(status.is_complete());
    let no_id = vec![VocabularyItem::new("x".to_string(), "y".to_string(), "z".to_string())];
    assert!(pipeline.process_items(no_id, "run-2", false, &provide_stage1, &provide_stage2).is_err());
}

#[test]
fn test_mock_client_creation() {
    let client = flashcard_core::provider::MockApiClient;
    assert!(client.health_check().is_ok());
}

#[test]
fn test_mock_stage1_processing() {
    let client = flashcard_core::provider::MockApiClient;
    let mut item = VocabularyItem::new("mock_test".to_string(), String::new(), "noun".to_string()).with_id(1);
    item.subcategory = Some("noun".to_string());
    let r = client.process_stage1(&item).unwrap();
    assert_eq!(r.semantic_analysis.primary_meaning, "Mock primary meaning");
    assert_eq!(r.cache_key, Stage1Result::generate_cache_key(&item));
}

#[test]
fn test_mock_stage2_processing() {
    let client = flashcard_core::provider::MockApiClient;
    let item = VocabularyItem::new("mock_test".to_string(), String::new(), "noun".to_string()).with_id(1);
    let s1 = client.process_stage1(&item).unwrap();
    let s2 = client.process_stage2(&item, &s1).unwrap();
    assert_eq!(s2.front.primary_field, "Mock front");
    assert_eq!(s2.back.primary_field, "Mock back");
    assert_eq!(s2.tsv_output, "Mock front\tMock back\t");
}

use flashcard_core::cache::{CacheManager, CacheStats, CacheType, CacheWarmupStats};
use flashcard_core::error::PipelineError;
use flashcard_core::vocabulary::{
    CardType, DifficultyLevel, FlashcardContent, FormalityLevel, FrequencyLevel, SemanticAnalysis,
    Stage1Result, Stage2Result, VocabularyItem,
};
use std::cell::Cell;

fn cache_item(korean: &str) -> VocabularyItem {
    VocabularyItem::new(korean.to_string(), "Hello".to_string(), "greetings".to_string())
}

fn stage1_for(item: &VocabularyItem) -> Stage1Result {
    Stage1Result {
        vocabulary_id: 1,
        request_id: "test".to_string(),
        cache_key: Stage1Result::generate_cache_key(item),
        semantic_analysis: SemanticAnalysis {
            primary_meaning: "Greeting".to_string(),
            alternative_meanings: vec![],
            connotations: vec![],
            register: "polite".to_string(),
            usage_contexts: vec!["formal".to_string()],
            cultural_notes: None,
            frequency: FrequencyLevel::VeryCommon,
            formality: FormalityLevel::Formal,
        },
        created_at: 0,
    }
}

fn cache_face(text: &str) -> FlashcardContent {
    FlashcardContent {
        primary_field: text.to_string(),
        secondary_field: None,
        tertiary_field: None,
        example_sentence: None,
        pronunciation_guide: None,
        image_prompt: None,
        mnemonic_aid: None,
        grammar_notes: None,
        cultural_notes: None,
        usage_notes: None,
        difficulty_level: DifficultyLevel::Beginner,
        frequency_level: FrequencyLevel::Common,
        thematic_tags: vec![],
        grammatical_tags: vec![],
        style_register: None,
    }
}

fn stage2_for(item: &VocabularyItem, s1: &Stage1Result) -> Stage2Result {
    Stage2Result {
        vocabulary_id: 1,
        stage1_cache_key: s1.cache_key.clone(),
        request_id: "test".to_string(),
        cache_key: Stage2Result::generate_cache_key(item, &s1.cache_key),
        front: cache_face(&item.korean),
        back: cache_face(&item.english),
        tags: vec![],
        deck_name: "deck".to_string(),
        card_type: CardType::Basic,
        tsv_output: String::new(),
        created_at: 0,
    }
}

#[test]
fn test_stage1_caching() {
    let mut manager = CacheManager::new();
    let item = cache_item("안녕하세요");
    let count = Cell::new(0);
    let (r1, hit1) = manager
        .get_or_compute_stage1(&item, || {
            count.set(count.get() + 1);
            Ok((stage1_for(&item), "hash123".to_string(), 100, "model-a".to_string()))
        })
        .unwrap();
    let (r2, hit2) = manager
        .get_or_compute_stage1(&item, || {
            count.set(count.get() + 1);
            panic!("Should not compute - should hit cache");
        })
        .unwrap();
    assert_eq!(count.get(), 1);
    assert_eq!(r1.cache_key, r2.cache_key);
    assert!(!hit1);
    assert!(hit2);
    assert_eq!(r2.semantic_analysis.primary_meaning, "Greeting");
}

#[test]
fn failures_are_not_cached() {
    let mut manager = CacheManager::new();
    let item = cache_item("실패");
    let r = manager.get_or_compute_stage1(&item, || Err(PipelineError::Api {
        message: "Test error".to_string(),
        status_code: Some(500),
    }));
    assert!(matches!(r, Err(PipelineError::Api { .. })));
    let count = Cell::new(0);
    let (_, hit) = manager
        .get_or_compute_stage1(&item, || {
            count.set(count.get() + 1);
            Ok((stage1_for(&item), "h".to_string(), 10, "m".to_string()))
        })
        .unwrap();
    assert_eq!(count.get(), 1);
    assert!(!hit);
    assert_eq!(manager.get_stats().stage1_entries, 1);
}

#[test]
fn stage2_is_keyed_by_stage1_result() {
    let mut manager = CacheManager::new();
    let item = cache_item("둘");
    let (s1, _) = manager
        .get_or_compute_stage1(&item, || Ok((stage1_for(&item), "h".to_string(), 10, "m".to_string())))
        .unwrap();
    let (s2, hit) = manager
        .get_or_compute_stage2(&item, &s1, || {
            Ok((stage2_for(&item, &s1), "h".to_string(), 20, "m".to_string()))
        })
        .unwrap();
    assert!(!hit);
    let key = Stage2Result::generate_cache_key(&item, &s1.cache_key);
    assert_eq!(s2.cache_key, key);
    let direct = manager.get_stage2_direct(&key).unwrap();
    assert_eq!(direct.front.primary_field, "둘");
    assert!(manager.get_stage1_direct(&s1.cache_key).is_some());
    assert!(manager.get_stage1_direct("stage1_missing").is_none());
}

#[test]
fn hit_rate_of_four_hits_and_one_miss() {
    let mut manager = CacheManager::new();
    let item = cache_item("율");
    for _ in 0..5 {
        manager
            .get_or_compute_stage1(&item, || Ok((stage1_for(&item), "h".to_string(), 1000, "m".to_string())))
            .unwrap();
    }
    let stats: CacheStats = manager.get_stats();
    assert_eq!(stats.total_hits, 4);
    assert_eq!(stats.total_misses, 1);
    assert_eq!(stats.hit_rate_bp, 8000);
    assert_eq!(stats.hit_rate_bp as f64 / 10000.0, 0.8);
    assert_eq!(stats.total_tokens_saved, 4000);
    assert_eq!(stats.estimated_cost_saved_micros, 600_000);
}

#[test]
fn hit_rate_is_zero_without_lookups() {
    let manager = CacheManager::new();
    let stats = manager.get_stats();
    assert_eq!(stats.hit_rate_bp, 0);
    assert_eq!(stats.total_entries, 0);
}

#[test]
fn warm_cache_counts_cached_stages() {
    let mut manager = CacheManager::new();
    let items: Vec<VocabularyItem> =
        ["하나", "둘", "셋", "넷", "다섯"].iter().map(|k| cache_item(k)).collect();
    for item in items.iter().take(2) {
        manager
            .get_or_compute_stage1(item, || Ok((stage1_for(item), "h".to_string(), 1, "m".to_string())))
            .unwrap();
    }
    let before = manager.get_stats();
    let w: CacheWarmupStats = manager.warm_cache_for_batch(&items);
    assert_eq!(w.total_items, 5);
    assert_eq!(w.stage1_cached, 2);
    assert_eq!(w.stage1_missing, 3);
    assert_eq!(w.stage2_cached, 0);
    assert_eq!(w.stage2_missing, 5);
    assert_eq!(w.cache_hit_rate(), 2000);
    let after = manager.get_stats();
    assert_eq!(before.total_hits, after.total_hits);
    assert_eq!(before.total_misses, after.total_misses);
}

#[test]
fn clear_cache_by_stage() {
    let mut manager = CacheManager::new();
    let item = cache_item("지우기");
    let (s1, _) = manager
        .get_or_compute_stage1(&item, || Ok((stage1_for(&item), "h".to_string(), 1, "m".to_string())))
        .unwrap();
    manager
        .get_or_compute_stage2(&item, &s1, || Ok((stage2_for(&item, &s1), "h".to_string(), 1, "m".to_string())))
        .unwrap();
    assert_eq!(manager.clear_cache(Some(CacheType::Stage2)), 1);
    assert_eq!(manager.get_stats().stage1_entries, 1);
    assert_eq!(manager.clear_cache(None), 1);
    assert_eq!(manager.get_stats().total_entries, 0);
    assert_eq!(manager.clear_cache(Some(CacheType::Stage1)), 0);
}

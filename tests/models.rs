use flashcard_core::error::{ErrorSeverity, PipelineError};
use flashcard_core::queue::{ProcessingStage, ProcessingStatus};
use flashcard_core::vocabulary::{
    CardType, DifficultyLevel, FlashcardContent, FormalityLevel, FrequencyLevel, HomonymEntry, Stage1Result,
    Stage2Result, VocabularyItem,
};

fn face(primary: &str) -> FlashcardContent {
    FlashcardContent {
        primary_field: primary.to_string(),
        secondary_field: None,
        tertiary_field: None,
        example_sentence: None,
        pronunciation_guide: None,
        image_prompt: None,
        mnemonic_aid: None,
        grammar_notes: None,
        cultural_notes: None,
        usage_notes: None,
        difficulty_level: DifficultyLevel::Beginner,
        frequency_level: FrequencyLevel::Common,
        thematic_tags: vec![],
        grammatical_tags: vec![],
        style_register: None,
    }
}

fn card(front: FlashcardContent, back: FlashcardContent, tags: Vec<String>) -> Stage2Result {
    Stage2Result {
        vocabulary_id: 1,
        stage1_cache_key: "stage1_x".to_string(),
        request_id: "req".to_string(),
        cache_key: "stage2_x".to_string(),
        front,
        back,
        tags,
        deck_name: "deck".to_string(),
        card_type: CardType::Basic,
        tsv_output: String::new(),
        created_at: 0,
    }
}

#[test]
fn test_difficulty_level_ordering() {
    assert!(DifficultyLevel::Beginner < DifficultyLevel::Intermediate);
    assert!(DifficultyLevel::Intermediate < DifficultyLevel::Advanced);
    assert!(DifficultyLevel::Advanced < DifficultyLevel::Native);
}

#[test]
fn test_frequency_level_default() {
    let freq = FrequencyLevel::default();
    assert_eq!(freq, FrequencyLevel::Common);
}

#[test]
fn test_flashcard_content_creation() {
    let content = FlashcardContent {
        primary_field: "Front text".to_string(),
        secondary_field: Some("Additional info".to_string()),
        tertiary_field: None,
        example_sentence: Some("This is an example.".to_string()),
        pronunciation_guide: Some("[pronunciation]".to_string()),
        image_prompt: None,
        mnemonic_aid: Some("Memory helper".to_string()),
        grammar_notes: None,
        cultural_notes: None,
        usage_notes: Some("Common usage".to_string()),
        difficulty_level: DifficultyLevel::Intermediate,
        frequency_level: FrequencyLevel::Common,
        thematic_tags: vec!["daily".to_string()],
        grammatical_tags: vec!["noun".to_string()],
        style_register: None,
    };

    assert_eq!(content.primary_field, "Front text");
    assert_eq!(content.difficulty_level, DifficultyLevel::Intermediate);
    assert_eq!(content.thematic_tags.len(), 1);
}

#[test]
fn test_homonym_entry() {
    let homonym = HomonymEntry {
        term: "배".to_string(),
        meaning: "boat".to_string(),
        context: Some("transportation".to_string()),
    };

    assert_eq!(homonym.term, "배");
    assert_eq!(homonym.meaning, "boat");
    assert!(homonym.context.is_some());
}

#[test]
fn vocabulary_test_vocabulary_item_creation() {
    let item = VocabularyItem::new(
        "안녕하세요".to_string(),
        "Hello".to_string(),
        "greetings".to_string(),
    );

    assert_eq!(item.korean, "안녕하세요");
    assert_eq!(item.english, "Hello");
    assert_eq!(item.category, "greetings");
    assert_eq!(item.difficulty_level, DifficultyLevel::Intermediate);
}

#[test]
fn vocabulary_test_cache_key_generation() {
    let item1 = VocabularyItem::new(
        "안녕하세요".to_string(),
        "Hello".to_string(),
        "greetings".to_string(),
    );
    let item2 = VocabularyItem::new(
        "안녕하세요".to_string(),
        "Hello".to_string(),
        "greetings".to_string(),
    );
    assert_eq!(item1.generate_cache_key(), item2.generate_cache_key());

    let item3 = VocabularyItem::new("안녕".to_string(), "Hi".to_string(), "greetings".to_string());
    assert_ne!(item1.generate_cache_key(), item3.generate_cache_key());
}

#[test]
fn test_models_test_vocabulary_item_creation() {
    let mut item = VocabularyItem::new("안녕하세요".to_string(), String::new(), String::new()).with_id(1);
    item.subcategory = Some("greeting".to_string());

    assert_eq!(item.id, Some(1));
    assert_eq!(item.korean, "안녕하세요");
    assert_eq!(item.subcategory, Some("greeting".to_string()));
}

#[test]
fn test_models_test_cache_key_generation() {
    let mut item = VocabularyItem::new("test".to_string(), String::new(), String::new()).with_id(1);
    item.subcategory = Some("noun".to_string());

    let key = item.generate_cache_key();
    assert!(!key.is_empty());
    assert_eq!(key.len(), 64);

    let key2 = item.generate_cache_key();
    assert_eq!(key, key2);
}

#[test]
fn test_cache_key_uniqueness() {
    let item1 = VocabularyItem::new("test1".to_string(), String::new(), "noun".to_string()).with_id(1);
    let item2 = VocabularyItem::new("test2".to_string(), String::new(), "noun".to_string()).with_id(2);

    assert_ne!(item1.generate_cache_key(), item2.generate_cache_key());
}

#[test]
fn test_stage2_result_with_flashcard() {
    let mut front = face("안녕하세요");
    front.secondary_field = Some("Hello (formal)".to_string());
    front.frequency_level = FrequencyLevel::Essential;
    front.thematic_tags = vec!["greeting".to_string(), "formal".to_string()];
    let mut back = face("Hello (formal greeting)");
    back.secondary_field = Some("안녕하세요".to_string());
    let result = card(front, back, vec![]);

    assert_eq!(result.card_type, CardType::Basic);
    assert_eq!(result.front.primary_field, "안녕하세요");
    assert_eq!(result.back.secondary_field, Some("안녕하세요".to_string()));
}

#[test]
fn test_error_severity() {
    let error = PipelineError::Cache("test error".to_string());
    assert_eq!(error.severity(), ErrorSeverity::Recoverable);

    let error = PipelineError::Database("connection failed".to_string());
    assert_eq!(error.severity(), ErrorSeverity::Retryable);

    let error = PipelineError::Api { message: "rate limited".to_string(), status_code: None };
    assert!(error.is_retryable());
}

#[test]
fn api_status_codes_classify() {
    let api = |c: u16| PipelineError::Api { message: "x".to_string(), status_code: Some(c) };
    assert_eq!(api(429).severity(), ErrorSeverity::Retryable);
    assert_eq!(api(502).severity(), ErrorSeverity::Retryable);
    assert_eq!(api(503).severity(), ErrorSeverity::Retryable);
    assert_eq!(api(404).severity(), ErrorSeverity::Fatal);
    assert_eq!(api(500).severity(), ErrorSeverity::Retryable);
    assert_eq!(PipelineError::Validation("v".to_string()).severity(), ErrorSeverity::Fatal);
    assert!(!PipelineError::Quarantined { attempts: 3, reason: "r".to_string() }.is_retryable());
    assert_eq!(PipelineError::Timeout { seconds: 1 }.severity(), ErrorSeverity::Retryable);
}

#[test]
fn error_messages_are_formatted() {
    assert_eq!(PipelineError::Validation("bad".to_string()).message(), "Validation error: bad");
    assert_eq!(
        PipelineError::RateLimit { retry_after: 120 }.message(),
        "Rate limit exceeded: retry after 120 seconds"
    );
    assert_eq!(
        PipelineError::Quarantined { attempts: 3, reason: "boom".to_string() }.message(),
        "Item quarantined after 3 attempts: boom"
    );
    assert_eq!(PipelineError::Timeout { seconds: 0 }.message(), "Processing timeout after 0 seconds");
}

#[test]
fn item_key_is_sha256_of_semantic_fields() {
    let item = VocabularyItem::new("a".to_string(), "b".to_string(), "c".to_string());
    // SHA-256 of "1:a1:b1:c--": each field framed by its length, both
    // optional fields absent.
    assert_eq!(
        item.generate_cache_key(),
        "22a54d8175c3b998928fa6c901dc008c91bde18116335510f3c90312fba9c7db"
    );
    let s1 = Stage1Result::generate_cache_key(&item);
    assert_eq!(s1, "stage1_22a54d8175c3b998928fa6c901dc008c91bde18116335510f3c90312fba9c7db");
}

#[test]
fn key_changes_with_meaning_only() {
    let a = VocabularyItem::new("사과".to_string(), "apple".to_string(), "food".to_string());
    let b = VocabularyItem::new("사과".to_string(), "apology".to_string(), "food".to_string());
    assert_ne!(a.generate_cache_key(), b.generate_cache_key());
}

#[test]
fn key_ignores_ids_and_timestamps() {
    let a = VocabularyItem::new("사과".to_string(), "apple".to_string(), "food".to_string()).with_id(1);
    let mut b = VocabularyItem::new("사과".to_string(), "apple".to_string(), "food".to_string()).with_id(99);
    b.created_at = 12345;
    b.updated_at = 67890;
    b.tags = vec!["fruit".to_string()];
    assert_eq!(a.generate_cache_key(), b.generate_cache_key());
    assert_eq!(Stage1Result::generate_cache_key(&a), Stage1Result::generate_cache_key(&b));
}

#[test]
fn optional_fields_feed_the_key() {
    let a = VocabularyItem::new("사과".to_string(), "apple".to_string(), "food".to_string());
    let mut b = a.clone();
    b.hanja = Some("沙果".to_string());
    assert_ne!(a.generate_cache_key(), b.generate_cache_key());
    let mut c = a.clone();
    c.example_sentence = Some("사과를 먹어요".to_string());
    assert_ne!(a.generate_cache_key(), c.generate_cache_key());
}

#[test]
fn stage2_key_depends_on_stage1_key() {
    let item = VocabularyItem::new("a".to_string(), "b".to_string(), "c".to_string());
    let k1 = Stage1Result::generate_cache_key(&item);
    let k2 = Stage2Result::generate_cache_key(&item, &k1);
    assert!(k2.starts_with("stage2_"));
    assert_eq!(k2.len(), 7 + 64);
    assert_eq!(k2, Stage2Result::generate_cache_key(&item, &k1));
    assert_ne!(k2, Stage2Result::generate_cache_key(&item, "stage1_other"));
}

#[test]
fn tsv_row_includes_optional_back_fields() {
    let mut back = face("Hello");
    back.secondary_field = Some("polite".to_string());
    back.example_sentence = Some("Hello there.".to_string());
    let r = card(face("안녕"), back, vec!["greeting".to_string(), "basic".to_string()]);
    assert_eq!(r.to_tsv_row(), "안녕\tHello\tpolite\tHello there.\tgreeting basic");
}

#[test]
fn tsv_row_skips_missing_back_fields() {
    let r = card(face("안녕"), face("Hi"), vec![]);
    assert_eq!(r.to_tsv_row(), "안녕\tHi\t");
}

#[test]
fn status_and_stage_names_round_trip() {
    for s in [
        ProcessingStatus::Pending,
        ProcessingStatus::InProgress,
        ProcessingStatus::Completed,
        ProcessingStatus::Failed,
        ProcessingStatus::Quarantined,
    ] {
        assert_eq!(ProcessingStatus::parse(s.as_str()).unwrap(), s);
    }
    assert_eq!(ProcessingStatus::InProgress.as_str(), "in_progress");
    for s in [ProcessingStage::Stage1, ProcessingStage::Stage2, ProcessingStage::Complete] {
        assert_eq!(ProcessingStage::parse(s.as_str()).unwrap(), s);
    }
}

#[test]
fn unknown_names_are_rejected() {
    assert!(matches!(ProcessingStatus::parse("done"), Err(PipelineError::Validation(_))));
    assert!(matches!(ProcessingStage::parse("stage3"), Err(PipelineError::Validation(_))));
}

#[test]
fn level_names_ignore_case() {
    assert_eq!("VERY_COMMON".parse::<FrequencyLevel>(), Ok(FrequencyLevel::VeryCommon));
    assert_eq!(FrequencyLevel::parse_name("Rare"), Ok(FrequencyLevel::Rare));
    assert_eq!("VeryInformal".parse::<FormalityLevel>(), Ok(FormalityLevel::VeryInformal));
    assert_eq!("Basic_Reversed".parse::<CardType>(), Ok(CardType::BasicReversed));
    assert_eq!(DifficultyLevel::parse_name("NATIVE"), Ok(DifficultyLevel::Native));
    assert_eq!(
        "often".parse::<FrequencyLevel>(),
        Err("Invalid frequency level: often".to_string())
    );
    assert_eq!(CardType::parse_name("Flip"), Err("Invalid card type: Flip".to_string()));
}

#[test]
fn shifted_field_boundaries_give_different_keys() {
    let a = VocabularyItem::new("ab".to_string(), "c".to_string(), "x".to_string());
    let b = VocabularyItem::new("a".to_string(), "bc".to_string(), "x".to_string());
    assert_ne!(a.generate_cache_key(), b.generate_cache_key());
}

#[test]
fn hanja_and_example_are_told_apart() {
    let mut a = VocabularyItem::new("k".to_string(), "e".to_string(), "c".to_string());
    let mut b = a.clone();
    a.hanja = Some("x".to_string());
    b.example_sentence = Some("x".to_string());
    assert_ne!(a.generate_cache_key(), b.generate_cache_key());
    let key = a.generate_cache_key();
    assert!(key.chars().all(|c| c.is_ascii_digit() || ('a'..='f').contains(&c)));
    let k2 = Stage2Result::generate_cache_key(&a, &Stage1Result::generate_cache_key(&a));
    assert_eq!(k2.len(), 71);
}

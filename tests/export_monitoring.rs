use flashcard_core::export::{export_record, export_records, header_record, ExportStats, TsvExporter};
use flashcard_core::monitoring::{HealthStatus, MetricsCollector, ServiceStatus};
use flashcard_core::vocabulary::{
    CardType, DifficultyLevel, FlashcardContent, FrequencyLevel, Stage2Result, VocabularyItem,
};

fn export_face(text: &str) -> FlashcardContent {
    FlashcardContent {
        primary_field: text.to_string(),
        secondary_field: None,
        tertiary_field: None,
        example_sentence: None,
        pronunciation_guide: None,
        image_prompt: None,
        mnemonic_aid: None,
        grammar_notes: None,
        cultural_notes: None,
        usage_notes: None,
        difficulty_level: DifficultyLevel::Beginner,
        frequency_level: FrequencyLevel::Essential,
        thematic_tags: vec![],
        grammatical_tags: vec![],
        style_register: None,
    }
}

fn export_card(front: FlashcardContent, back: FlashcardContent) -> Stage2Result {
    Stage2Result {
        vocabulary_id: 7,
        stage1_cache_key: "k1".to_string(),
        request_id: "r".to_string(),
        cache_key: "k2".to_string(),
        front,
        back,
        tags: vec![],
        deck_name: "deck".to_string(),
        card_type: CardType::Basic,
        tsv_output: String::new(),
        created_at: 0,
    }
}

#[test]
fn exporter_defaults() {
    let t = TsvExporter::new();
    assert_eq!(t.delimiter, b'\t');
    assert!(t.include_headers);
    assert_eq!(TsvExporter::csv().delimiter, b',');
    assert_eq!(header_record().len(), 15);
    assert_eq!(header_record()[3], "Part of Speech");
}

#[test]
fn export_record_fields() {
    let item = VocabularyItem::new("안녕".to_string(), "hi".to_string(), "greeting".to_string()).with_id(-3);
    let mut front = export_face("안녕");
    front.pronunciation_guide = Some("[an.njʌŋ]".to_string());
    front.mnemonic_aid = Some("an young".to_string());
    front.usage_notes = Some("casual".to_string());
    front.cultural_notes = Some("friends".to_string());
    front.thematic_tags = vec!["greeting".to_string()];
    front.grammatical_tags = vec!["interjection".to_string()];
    let mut back = export_face("hi");
    back.example_sentence = Some("Hi there.".to_string());
    let r = export_record(&item, &export_card(front, back));
    assert_eq!(
        r,
        vec![
            "-3", "안녕", "[an.njʌŋ]", "greeting", "안녕", "", "", "hi", "", "Hi there.", "an young",
            "Beginner", "Essential", "greeting, interjection", "Usage: casual | Cultural: friends",
        ]
    );
}

#[test]
fn export_counts_cards() {
    let item = VocabularyItem::new("a".to_string(), "b".to_string(), "c".to_string());
    let mut f1 = export_face("a");
    f1.mnemonic_aid = Some("m".to_string());
    f1.example_sentence = Some("e".to_string());
    let mut f2 = export_face("b");
    f2.difficulty_level = DifficultyLevel::Native;
    f2.grammar_notes = Some("g".to_string());
    let results = vec![
        (item.clone(), export_card(f1, export_face("x"))),
        (item.clone(), export_card(f2, export_face("y"))),
    ];
    let (rows, stats) = export_records(&results);
    assert_eq!(rows.len(), 2);
    assert_eq!(rows[0][0], "");
    assert_eq!(stats.cards_exported, 2);
    assert_eq!(stats.beginner_cards, 1);
    assert_eq!(stats.native_cards, 1);
    assert_eq!(stats.cards_with_mnemonics, 1);
    assert_eq!(stats.cards_with_examples, 1);
    assert_eq!(stats.cards_with_notes, 1);
}

#[test]
fn export_summary_text() {
    let s = ExportStats {
        cards_exported: 3,
        beginner_cards: 1,
        intermediate_cards: 1,
        advanced_cards: 1,
        native_cards: 0,
        cards_with_mnemonics: 2,
        cards_with_examples: 3,
        cards_with_notes: 0,
    };
    assert_eq!(
        s.summary(),
        "Exported 3 cards:\n  - Beginner: 1\n  - Intermediate: 1\n  - Advanced: 1\n  - Native: 0\n  - With mnemonics: 2\n  - With examples: 3\n  - With notes: 0"
    );
}

#[test]
fn service_health() {
    assert!(ServiceStatus::Healthy.is_healthy());
    assert!(!ServiceStatus::Degraded("slow".to_string()).is_healthy());
    assert!(!ServiceStatus::Unhealthy("down".to_string()).is_healthy());
    let h = HealthStatus::from_services(
        ServiceStatus::Healthy,
        ServiceStatus::Healthy,
        ServiceStatus::Degraded("slow".to_string()),
        ServiceStatus::Healthy,
        5,
    );
    assert!(!h.healthy);
}

#[test]
fn metrics_rates() {
    let mut m = MetricsCollector::new();
    for _ in 0..4 {
        m.record_cache_hit();
    }
    m.record_cache_miss();
    assert_eq!(m.get_cache_hit_rate(), 8000);
    m.record_item_processed(true, 100);
    m.record_item_processed(false, 300);
    assert_eq!(m.get_success_rate(), 5000);
    assert_eq!(m.get_metrics().average_processing_time_ms, 200);
    m.record_api_call(250_000);
    assert_eq!(m.get_metrics().estimated_cost_micros, 2_500_000);
    m.record_api_error();
    m.record_rate_limit();
    assert_eq!(m.get_metrics().api_errors, 1);
    assert_eq!(m.get_metrics().rate_limit_hits, 1);
    let text = m.get_metrics().to_prometheus_format();
    assert!(text.starts_with("# HELP pipeline_items_processed Total number of items processed\n# TYPE pipeline_items_processed counter\npipeline_items_processed 2\n"));
    assert!(text.contains("pipeline_cache_hits 4\n"));
    assert!(text.contains("pipeline_average_processing_time_ms 200\n"));
}

#[test]
fn metrics_rates_start_at_zero() {
    let m = MetricsCollector::new();
    assert_eq!(m.get_cache_hit_rate(), 0);
    assert_eq!(m.get_success_rate(), 0);
}

#[test]
fn system_status_health() {
    let mut st = flashcard_core::monitoring::SystemStatus {
        database_healthy: true,
        api_healthy: true,
        cache_healthy: true,
        queue_size: 3,
        cache_size: 10,
        last_error: None,
        uptime_secs: 60,
    };
    assert!(st.is_healthy());
    st.api_healthy = false;
    assert!(!st.is_healthy());
}

#[test]
fn content_flattens_to_card_face() {
    let mut f = export_face("앞");
    f.secondary_field = Some("sub".to_string());
    f.usage_notes = Some("note".to_string());
    let face = f.to_card_face();
    assert_eq!(face.primary_content, "앞");
    assert_eq!(face.secondary_content, Some("sub".to_string()));
    assert_eq!(face.notes, Some("note".to_string()));
    assert!(face.media_references.is_empty());
}

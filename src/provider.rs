//! A stand-in compute provider that answers every request with fixed
//! content, for running the pipeline without the real one.
use crate::error::PipelineError;
use crate::vocabulary::{
    now_seconds, stage1_key, stage2_key, tsv_row, CardType, DifficultyLevel, FlashcardContent,
    FormalityLevel, FrequencyLevel, SemanticAnalysis, Stage1Result, Stage2Result, VocabularyItem,
};
use vstd::prelude::*;

verus! {

/// The stand-in provider.
pub struct MockApiClient;

fn plain_face(primary: &str, secondary: Option<String>) -> (r: FlashcardContent)
    ensures
        r.primary_field@ == primary@,
        r.secondary_field == secondary,
        r.example_sentence is None,
        r.thematic_tags@.len() == 0,
{
    FlashcardContent {
        primary_field: String::from_str(primary),
        secondary_field: secondary,
        tertiary_field: None,
        example_sentence: None,
        pronunciation_guide: None,
        image_prompt: None,
        mnemonic_aid: None,
        grammar_notes: None,
        cultural_notes: None,
        usage_notes: None,
        difficulty_level: DifficultyLevel::Beginner,
        frequency_level: FrequencyLevel::Common,
        thematic_tags: Vec::new(),
        grammatical_tags: Vec::new(),
        style_register: None,
    }
}

impl MockApiClient {
    /// A fixed stage-one analysis of `item`, keyed by its stage-one key.
    pub fn process_stage1(&self, item: &VocabularyItem) -> (r: Result<Stage1Result, PipelineError>)
        ensures
            r matches Ok(s1) && s1.cache_key@ == stage1_key(*item) && s1.vocabulary_id == match item.id {
                Some(i) => i,
                None => 0,
            } && s1.semantic_analysis.primary_meaning@ == "Mock primary meaning"@,
    {
        let vocabulary_id = match item.id {
            Some(i) => i,
            None => 0,
        };
        Ok(
            Stage1Result {
                vocabulary_id,
                request_id: String::from_str("mock"),
                cache_key: Stage1Result::generate_cache_key(item),
                semantic_analysis: SemanticAnalysis {
                    primary_meaning: String::from_str("Mock primary meaning"),
                    alternative_meanings: Vec::new(),
                    connotations: Vec::new(),
                    register: String::from_str("neutral"),
                    usage_contexts: Vec::new(),
                    cultural_notes: None,
                    frequency: FrequencyLevel::Common,
                    formality: FormalityLevel::Neutral,
                },
                created_at: now_seconds(),
            },
        )
    }

    /// A fixed card for `item`, keyed by its stage-two key under `stage1`,
    /// with its flat row filled in.
    pub fn process_stage2(&self, item: &VocabularyItem, stage1: &Stage1Result) -> (r: Result<
        Stage2Result,
        PipelineError,
    >)
        ensures
            r matches Ok(s2) && s2.cache_key@ == stage2_key(*item, stage1.cache_key@)
                && s2.stage1_cache_key@ == stage1.cache_key@ && s2.front.primary_field@
                == "Mock front"@ && s2.back.primary_field@ == "Mock back"@ && s2.tsv_output@
                == tsv_row(s2),
    {
        let vocabulary_id = match item.id {
            Some(i) => i,
            None => 0,
        };
        let mut s2 = Stage2Result {
            vocabulary_id,
            stage1_cache_key: stage1.cache_key.clone(),
            request_id: String::from_str("mock"),
            cache_key: Stage2Result::generate_cache_key(item, stage1.cache_key.as_str()),
            front: plain_face("Mock front", Some(String::from_str("Mock secondary"))),
            back: plain_face("Mock back", None),
            tags: Vec::new(),
            deck_name: String::from_str("mock"),
            card_type: CardType::Basic,
            tsv_output: String::new(),
            created_at: now_seconds(),
        };
        let row = s2.to_tsv_row();
        s2.tsv_output = row;
        Ok(s2)
    }

    /// The stand-in is always available.
    pub fn health_check(&self) -> (r: Result<(), PipelineError>)
        ensures
            r is Ok,
    {
        Ok(())
    }
}

} // verus!

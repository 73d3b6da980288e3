//! Vocabulary items, the cached stage results, and content-addressed keys.
use crate::text::{copy_opt, copy_strings, decimal, decimal_string, join, join_strings, views};
use vstd::string::StrSliceExecFns;
use sha2::Digest;
use vstd::prelude::*;

verus! {

/// How hard an item is for a learner, from easiest to hardest.
#[derive(Debug, Clone, Copy, PartialEq, Eq, PartialOrd, Ord, Hash, Structural)]
pub enum DifficultyLevel {
    Beginner,
    Elementary,
    Intermediate,
    Advanced,
    Native,
}

/// How often a word is met.
#[derive(Debug, Clone, Copy, PartialEq, Eq, Structural)]
pub enum FrequencyLevel {
    Essential,
    VeryCommon,
    Common,
    Uncommon,
    Rare,
    Archaic,
}

impl Default for FrequencyLevel {
    fn default() -> (r: Self)
        ensures
            r == FrequencyLevel::Common,
    {
        FrequencyLevel::Common
    }
}

/// The register of a word.
#[derive(Debug, Clone, Copy, PartialEq, Eq, Structural)]
pub enum FormalityLevel {
    VeryFormal,
    Formal,
    Neutral,
    Informal,
    VeryInformal,
}

/// The kind of card a stage-two result renders to.
#[derive(Debug, Clone, Copy, PartialEq, Eq, Structural)]
pub enum CardType {
    Basic,
    BasicReversed,
    Cloze,
    Production,
    Recognition,
}

/// A content record. Only `korean`, `english`, `category`, `hanja` and
/// `example_sentence` feed key derivation; times are Unix seconds.
#[derive(Debug, Clone)]
pub struct VocabularyItem {
    pub id: Option<i64>,
    pub korean: String,
    pub english: String,
    pub hanja: Option<String>,
    pub category: String,
    pub subcategory: Option<String>,
    pub tags: Vec<String>,
    pub difficulty_level: DifficultyLevel,
    pub source: String,
    pub example_sentence: Option<String>,
    pub notes: Option<String>,
    pub created_at: i64,
    pub updated_at: i64,
}

/// One more meaning of the same spelling.
#[derive(Debug, Clone)]
pub struct HomonymEntry {
    pub term: String,
    pub meaning: String,
    pub context: Option<String>,
}

/// What stage one computes for an item.
#[derive(Debug, Clone)]
pub struct SemanticAnalysis {
    pub primary_meaning: String,
    pub alternative_meanings: Vec<String>,
    pub connotations: Vec<String>,
    pub register: String,
    pub usage_contexts: Vec<String>,
    pub cultural_notes: Option<String>,
    pub frequency: FrequencyLevel,
    pub formality: FormalityLevel,
}

/// A cached stage-one result.
#[derive(Debug, Clone)]
pub struct Stage1Result {
    pub vocabulary_id: i64,
    pub request_id: String,
    pub cache_key: String,
    pub semantic_analysis: SemanticAnalysis,
    pub created_at: i64,
}

/// The content of one face of a flashcard.
#[derive(Debug, Clone)]
pub struct FlashcardContent {
    pub primary_field: String,
    pub secondary_field: Option<String>,
    pub tertiary_field: Option<String>,
    pub example_sentence: Option<String>,
    pub pronunciation_guide: Option<String>,
    pub image_prompt: Option<String>,
    pub mnemonic_aid: Option<String>,
    pub grammar_notes: Option<String>,
    pub cultural_notes: Option<String>,
    pub usage_notes: Option<String>,
    pub difficulty_level: DifficultyLevel,
    pub frequency_level: FrequencyLevel,
    pub thematic_tags: Vec<String>,
    pub grammatical_tags: Vec<String>,
    pub style_register: Option<String>,
}

/// One face of a card in its flat form: the main text, optional secondary
/// text, example, pronunciation and notes, and media references.
#[derive(Debug, Clone)]
pub struct CardFace {
    pub primary_content: String,
    pub secondary_content: Option<String>,
    pub example: Option<String>,
    pub pronunciation: Option<String>,
    pub notes: Option<String>,
    pub media_references: Vec<String>,
}

impl FlashcardContent {
    /// The flat face of this content: primary and secondary fields, example,
    /// pronunciation guide and usage notes, no media.
    pub fn to_card_face(&self) -> (r: CardFace)
        ensures
            r.primary_content == self.primary_field,
            r.secondary_content == self.secondary_field,
            r.example == self.example_sentence,
            r.pronunciation == self.pronunciation_guide,
            r.notes == self.usage_notes,
            r.media_references@.len() == 0,
    {
        CardFace {
            primary_content: self.primary_field.clone(),
            secondary_content: copy_opt(&self.secondary_field),
            example: copy_opt(&self.example_sentence),
            pronunciation: copy_opt(&self.pronunciation_guide),
            notes: copy_opt(&self.usage_notes),
            media_references: Vec::new(),
        }
    }
}

/// A cached stage-two result: the card, the stage-one key it was derived
/// from, and its flat tab-separated row.
#[derive(Debug, Clone)]
pub struct Stage2Result {
    pub vocabulary_id: i64,
    pub stage1_cache_key: String,
    pub request_id: String,
    pub cache_key: String,
    pub front: FlashcardContent,
    pub back: FlashcardContent,
    pub tags: Vec<String>,
    pub deck_name: String,
    pub card_type: CardType,
    pub tsv_output: String,
    pub created_at: i64,
}

/// A value that can be copied into an equal value, equality being that of
/// its view.
pub trait Payload: View + Sized {
    fn duplicate(&self) -> (r: Self)
        ensures
            r@ == self@,
    ;
}

/// The mathematical content of a `SemanticAnalysis`.
pub struct SemanticAnalysisView {
    pub primary_meaning: Seq<char>,
    pub alternative_meanings: Seq<Seq<char>>,
    pub connotations: Seq<Seq<char>>,
    pub register: Seq<char>,
    pub usage_contexts: Seq<Seq<char>>,
    pub cultural_notes: Option<Seq<char>>,
    pub frequency: FrequencyLevel,
    pub formality: FormalityLevel,
}

impl View for SemanticAnalysis {
    type V = SemanticAnalysisView;

    open spec fn view(&self) -> SemanticAnalysisView {
        SemanticAnalysisView {
            primary_meaning: self.primary_meaning@,
            alternative_meanings: views(self.alternative_meanings@),
            connotations: views(self.connotations@),
            register: self.register@,
            usage_contexts: views(self.usage_contexts@),
            cultural_notes: opt_view(self.cultural_notes),
            frequency: self.frequency,
            formality: self.formality,
        }
    }
}

impl SemanticAnalysis {
    /// A copy of the analysis.
    pub fn duplicate(&self) -> (r: Self)
        ensures
            r@ == self@,
    {
        SemanticAnalysis {
            primary_meaning: self.primary_meaning.clone(),
            alternative_meanings: copy_strings(&self.alternative_meanings),
            connotations: copy_strings(&self.connotations),
            register: self.register.clone(),
            usage_contexts: copy_strings(&self.usage_contexts),
            cultural_notes: copy_opt(&self.cultural_notes),
            frequency: self.frequency,
            formality: self.formality,
        }
    }
}

/// The mathematical content of a `Stage1Result`.
pub struct Stage1ResultView {
    pub vocabulary_id: i64,
    pub request_id: Seq<char>,
    pub cache_key: Seq<char>,
    pub semantic_analysis: SemanticAnalysisView,
    pub created_at: i64,
}

impl View for Stage1Result {
    type V = Stage1ResultView;

    open spec fn view(&self) -> Stage1ResultView {
        Stage1ResultView {
            vocabulary_id: self.vocabulary_id,
            request_id: self.request_id@,
            cache_key: self.cache_key@,
            semantic_analysis: self.semantic_analysis@,
            created_at: self.created_at,
        }
    }
}

impl Payload for Stage1Result {
    fn duplicate(&self) -> (r: Self) {
        Stage1Result {
            vocabulary_id: self.vocabulary_id,
            request_id: self.request_id.clone(),
            cache_key: self.cache_key.clone(),
            semantic_analysis: self.semantic_analysis.duplicate(),
            created_at: self.created_at,
        }
    }
}

/// The mathematical content of a `FlashcardContent`.
pub struct FlashcardContentView {
    pub primary_field: Seq<char>,
    pub secondary_field: Option<Seq<char>>,
    pub tertiary_field: Option<Seq<char>>,
    pub example_sentence: Option<Seq<char>>,
    pub pronunciation_guide: Option<Seq<char>>,
    pub image_prompt: Option<Seq<char>>,
    pub mnemonic_aid: Option<Seq<char>>,
    pub grammar_notes: Option<Seq<char>>,
    pub cultural_notes: Option<Seq<char>>,
    pub usage_notes: Option<Seq<char>>,
    pub difficulty_level: DifficultyLevel,
    pub frequency_level: FrequencyLevel,
    pub thematic_tags: Seq<Seq<char>>,
    pub grammatical_tags: Seq<Seq<char>>,
    pub style_register: Option<Seq<char>>,
}

impl View for FlashcardContent {
    type V = FlashcardContentView;

    open spec fn view(&self) -> FlashcardContentView {
        FlashcardContentView {
            primary_field: self.primary_field@,
            secondary_field: opt_view(self.secondary_field),
            tertiary_field: opt_view(self.tertiary_field),
            example_sentence: opt_view(self.example_sentence),
            pronunciation_guide: opt_view(self.pronunciation_guide),
            image_prompt: opt_view(self.image_prompt),
            mnemonic_aid: opt_view(self.mnemonic_aid),
            grammar_notes: opt_view(self.grammar_notes),
            cultural_notes: opt_view(self.cultural_notes),
            usage_notes: opt_view(self.usage_notes),
            difficulty_level: self.difficulty_level,
            frequency_level: self.frequency_level,
            thematic_tags: views(self.thematic_tags@),
            grammatical_tags: views(self.grammatical_tags@),
            style_register: opt_view(self.style_register),
        }
    }
}

impl FlashcardContent {
    /// A copy of the card face.
    pub fn duplicate(&self) -> (r: Self)
        ensures
            r@ == self@,
    {
        FlashcardContent {
            primary_field: self.primary_field.clone(),
            secondary_field: copy_opt(&self.secondary_field),
            tertiary_field: copy_opt(&self.tertiary_field),
            example_sentence: copy_opt(&self.example_sentence),
            pronunciation_guide: copy_opt(&self.pronunciation_guide),
            image_prompt: copy_opt(&self.image_prompt),
            mnemonic_aid: copy_opt(&self.mnemonic_aid),
            grammar_notes: copy_opt(&self.grammar_notes),
            cultural_notes: copy_opt(&self.cultural_notes),
            usage_notes: copy_opt(&self.usage_notes),
            difficulty_level: self.difficulty_level,
            frequency_level: self.frequency_level,
            thematic_tags: copy_strings(&self.thematic_tags),
            grammatical_tags: copy_strings(&self.grammatical_tags),
            style_register: copy_opt(&self.style_register),
        }
    }
}

/// The mathematical content of a `Stage2Result`.
pub struct Stage2ResultView {
    pub vocabulary_id: i64,
    pub stage1_cache_key: Seq<char>,
    pub request_id: Seq<char>,
    pub cache_key: Seq<char>,
    pub front: FlashcardContentView,
    pub back: FlashcardContentView,
    pub tags: Seq<Seq<char>>,
    pub deck_name: Seq<char>,
    pub card_type: CardType,
    pub tsv_output: Seq<char>,
    pub created_at: i64,
}

impl View for Stage2Result {
    type V = Stage2ResultView;

    open spec fn view(&self) -> Stage2ResultView {
        Stage2ResultView {
            vocabulary_id: self.vocabulary_id,
            stage1_cache_key: self.stage1_cache_key@,
            request_id: self.request_id@,
            cache_key: self.cache_key@,
            front: self.front@,
            back: self.back@,
            tags: views(self.tags@),
            deck_name: self.deck_name@,
            card_type: self.card_type,
            tsv_output: self.tsv_output@,
            created_at: self.created_at,
        }
    }
}

impl Payload for Stage2Result {
    fn duplicate(&self) -> (r: Self) {
        Stage2Result {
            vocabulary_id: self.vocabulary_id,
            stage1_cache_key: self.stage1_cache_key.clone(),
            request_id: self.request_id.clone(),
            cache_key: self.cache_key.clone(),
            front: self.front.duplicate(),
            back: self.back.duplicate(),
            tags: copy_strings(&self.tags),
            deck_name: self.deck_name.clone(),
            card_type: self.card_type,
            tsv_output: self.tsv_output.clone(),
            created_at: self.created_at,
        }
    }
}

/// SHA-256 of the UTF-8 bytes of `parts`, fed in order, as lowercase hex.
pub uninterp spec fn sha256_hex(parts: Seq<Seq<char>>) -> Seq<char>;

pub open spec fn is_lower_hex(s: Seq<char>) -> bool {
    forall|i: int| 0 <= i < s.len() ==> (('0' <= #[trigger] s[i] && s[i] <= '9') || ('a' <= s[i]
        && s[i] <= 'f'))
}

/// Relies on sha2::Sha256 (`update` on each part's bytes, then `finalize`) and
/// on generic_array's `LowerHex`, which writes two lowercase digits per byte.
#[verifier::external_body]
fn digest_hex(parts: &Vec<String>) -> (r: String)
    ensures
        r@ == sha256_hex(views(parts@)),
        r@.len() == 64,
        is_lower_hex(r@),
{
    let mut hasher = sha2::Sha256::new();
    for p in parts.iter() {
        hasher.update(p.as_bytes());
    }
    format!("{:x}", hasher.finalize())
}

/// Relies on chrono::Utc::now and DateTime::timestamp: the current time in
/// Unix seconds.
#[verifier::external_body]
pub(crate) fn now_seconds() -> (r: i64) {
    chrono::Utc::now().timestamp()
}

pub open spec fn opt_part(o: Option<String>) -> Seq<Seq<char>> {
    match o {
        Some(s) => seq![s@],
        None => Seq::empty(),
    }
}

/// A field as it is hashed: its length in characters, a colon, then the
/// text, so that no two different field sequences run together alike.
pub open spec fn framed(s: Seq<char>) -> Seq<char> {
    decimal(s.len()) + ":"@ + s
}

/// An optional field as it is hashed: "-" when absent, "+" and the framed
/// text when present.
pub open spec fn framed_opt(o: Option<String>) -> Seq<char> {
    match o {
        Some(s) => "+"@ + framed(s@),
        None => "-"@,
    }
}

/// The semantic fields of an item, framed, in the order they are hashed.
pub open spec fn key_parts(item: VocabularyItem) -> Seq<Seq<char>> {
    seq![
        framed(item.korean@),
        framed(item.english@),
        framed(item.category@),
        framed_opt(item.hanja),
        framed_opt(item.example_sentence),
    ]
}

fn frame(s: &str) -> (r: String)
    ensures
        r@ == framed(s@),
{
    let n = s.unicode_len();
    let mut r = decimal_string(n as u64);
    r.append(":");
    r.append(s);
    r
}

fn frame_opt(o: &Option<String>) -> (r: String)
    ensures
        r@ == framed_opt(*o),
{
    match o {
        Some(s) => {
            let mut r = String::from_str("+");
            r.append(frame(s.as_str()).as_str());
            r
        },
        None => String::from_str("-"),
    }
}

/// The content key of an item.
pub open spec fn item_key(item: VocabularyItem) -> Seq<char> {
    sha256_hex(key_parts(item))
}

/// The stage-one cache key of an item.
pub open spec fn stage1_key(item: VocabularyItem) -> Seq<char> {
    "stage1_"@ + item_key(item)
}

/// The stage-two cache key of an item, from its stage-one key.
pub open spec fn stage2_key(item: VocabularyItem, s1: Seq<char>) -> Seq<char> {
    "stage2_"@ + sha256_hex(seq![s1, item_key(item)])
}

/// The fields of the flat row of a stage-two result.
pub open spec fn tsv_fields(r: Stage2Result) -> Seq<Seq<char>> {
    seq![r.front.primary_field@, r.back.primary_field@] + opt_part(r.back.secondary_field)
        + opt_part(r.back.example_sentence) + seq![join(views(r.tags@), " "@)]
}

/// The flat tab-separated row of a stage-two result.
pub open spec fn tsv_row(r: Stage2Result) -> Seq<char> {
    join(tsv_fields(r), "\t"@)
}

fn push_opt(v: &mut Vec<String>, o: &Option<String>)
    ensures
        views(final(v)@) == views(old(v)@) + opt_part(*o),
{
    let ghost start = views(v@);
    match o {
        Some(s) => {
            v.push(s.clone());
            assert(views(v@) =~= start + seq![s@]);
        },
        None => {
            assert(views(v@) =~= start);
        },
    }
}

impl VocabularyItem {
    /// A new item with the given term, meaning and category, at difficulty
    /// `Intermediate`, from source "manual", stamped with the current time.
    pub fn new(korean: String, english: String, category: String) -> (r: Self)
        ensures
            r.id is None,
            r.korean == korean,
            r.english == english,
            r.category == category,
            r.hanja is None,
            r.subcategory is None,
            r.tags@.len() == 0,
            r.difficulty_level == DifficultyLevel::Intermediate,
            r.source@ == "manual"@,
            r.example_sentence is None,
            r.notes is None,
            r.created_at == r.updated_at,
    {
        let now = now_seconds();
        VocabularyItem {
            id: None,
            korean,
            english,
            hanja: None,
            category,
            subcategory: None,
            tags: Vec::new(),
            difficulty_level: DifficultyLevel::Intermediate,
            source: String::from_str("manual"),
            example_sentence: None,
            notes: None,
            created_at: now,
            updated_at: now,
        }
    }

    /// The same item with its id set.
    pub fn with_id(self, id: i64) -> (r: Self)
        ensures
            r == (VocabularyItem { id: Some(id), ..self }),
    {
        let mut s = self;
        s.id = Some(id);
        s
    }

    /// The content key: 64 lowercase hex digits of the SHA-256 of the
    /// semantic fields, each framed by its length, optional ones by a
    /// presence mark.
    pub fn generate_cache_key(&self) -> (r: String)
        ensures
            r@ == item_key(*self),
            r@.len() == 64,
            is_lower_hex(r@),
    {
        let parts: Vec<String> = vec![
            frame(self.korean.as_str()),
            frame(self.english.as_str()),
            frame(self.category.as_str()),
            frame_opt(&self.hanja),
            frame_opt(&self.example_sentence),
        ];
        assert(views(parts@) =~= key_parts(*self));
        digest_hex(&parts)
    }

    /// Equal field for field, the tag lists as sequences.
    pub open spec fn same_as(self, o: Self) -> bool {
        &&& self.id == o.id
        &&& self.korean == o.korean
        &&& self.english == o.english
        &&& self.hanja == o.hanja
        &&& self.category == o.category
        &&& self.subcategory == o.subcategory
        &&& self.tags@ == o.tags@
        &&& self.difficulty_level == o.difficulty_level
        &&& self.source == o.source
        &&& self.example_sentence == o.example_sentence
        &&& self.notes == o.notes
        &&& self.created_at == o.created_at
        &&& self.updated_at == o.updated_at
    }

    /// A copy of the item.
    pub fn duplicate(&self) -> (r: Self)
        ensures
            r.same_as(*self),
    {
        VocabularyItem {
            id: self.id,
            korean: self.korean.clone(),
            english: self.english.clone(),
            hanja: copy_opt(&self.hanja),
            category: self.category.clone(),
            subcategory: copy_opt(&self.subcategory),
            tags: copy_strings(&self.tags),
            difficulty_level: self.difficulty_level,
            source: self.source.clone(),
            example_sentence: copy_opt(&self.example_sentence),
            notes: copy_opt(&self.notes),
            created_at: self.created_at,
            updated_at: self.updated_at,
        }
    }
}

impl Stage1Result {
    /// The stage-one key of an item: "stage1_" followed by its content key.
    pub fn generate_cache_key(vocab_item: &VocabularyItem) -> (r: String)
        ensures
            r@ == stage1_key(*vocab_item),
            r@.len() == 71,
            r@.subrange(0, 7) == "stage1_"@,
            is_lower_hex(r@.subrange(7, 71)),
    {
        let mut r = String::from_str("stage1_");
        let k = vocab_item.generate_cache_key();
        proof {
            reveal_strlit("stage1_");
        }
        r.append(k.as_str());
        assert(r@.subrange(0, 7) =~= "stage1_"@);
        assert(r@.subrange(7, 71) =~= k@);
        r
    }
}

impl Stage2Result {
    /// The stage-two key of an item: "stage2_" followed by the hex digest of
    /// the stage-one key and then the item's content key.
    pub fn generate_cache_key(vocab_item: &VocabularyItem, stage1_key: &str) -> (r: String)
        ensures
            r@ == stage2_key(*vocab_item, stage1_key@),
            r@.len() == 71,
            r@.subrange(0, 7) == "stage2_"@,
            is_lower_hex(r@.subrange(7, 71)),
    {
        let mut parts: Vec<String> = Vec::new();
        parts.push(String::from_str(stage1_key));
        parts.push(vocab_item.generate_cache_key());
        assert(views(parts@) =~= seq![stage1_key@, item_key(*vocab_item)]);
        let d = digest_hex(&parts);
        let mut r = String::from_str("stage2_");
        proof {
            reveal_strlit("stage2_");
        }
        r.append(d.as_str());
        assert(r@.subrange(0, 7) =~= "stage2_"@);
        assert(r@.subrange(7, 71) =~= d@);
        r
    }

    /// The flat row: front primary, back primary, back secondary and back
    /// example where present, then the tags joined by spaces; tab-separated.
    pub fn to_tsv_row(&self) -> (r: String)
        ensures
            r@ == tsv_row(*self),
    {
        let mut fields: Vec<String> = Vec::new();
        fields.push(self.front.primary_field.clone());
        fields.push(self.back.primary_field.clone());
        assert(views(fields@) =~= seq![self.front.primary_field@, self.back.primary_field@]);
        push_opt(&mut fields, &self.back.secondary_field);
        push_opt(&mut fields, &self.back.example_sentence);
        let tags = join_strings(&self.tags, " ");
        let ghost before = views(fields@);
        fields.push(tags);
        assert(views(fields@) =~= before + seq![join(views(self.tags@), " "@)]);
        assert(views(fields@) =~= tsv_fields(*self));
        join_strings(&fields, "\t")
    }
}

/// The view of an optional string.
pub open spec fn opt_view(o: Option<String>) -> Option<Seq<char>> {
    match o {
        Some(s) => Some(s@),
        None => None,
    }
}

/// Items that agree on their semantic fields have the same keys at both
/// stages, whatever their ids, tags, sources and timestamps.
pub proof fn lemma_key_ignores_identity(a: VocabularyItem, b: VocabularyItem, s1: Seq<char>)
    requires
        a.korean@ == b.korean@,
        a.english@ == b.english@,
        a.category@ == b.category@,
        opt_view(a.hanja) == opt_view(b.hanja),
        opt_view(a.example_sentence) == opt_view(b.example_sentence),
    ensures
        item_key(a) == item_key(b),
        stage1_key(a) == stage1_key(b),
        stage2_key(a, s1) == stage2_key(b, s1),
{
    assert(key_parts(a) =~= key_parts(b));
}

/// Deriving the key of an item twice, or of a copy of it, gives the same key.
pub proof fn lemma_key_deterministic(item: VocabularyItem, copy: VocabularyItem)
    requires
        copy.same_as(item),
    ensures
        item_key(item) == item_key(copy),
        stage1_key(item) == stage1_key(copy),
{
    lemma_key_ignores_identity(item, copy, Seq::empty());
}

} // verus!

//! The flat records that exports write, and what an export counts.
use crate::text::{copy_strings, decimal, decimal_string, join, join_strings, views};
use crate::vocabulary::{
    opt_view, DifficultyLevel, FlashcardContent, FrequencyLevel, Stage2Result, VocabularyItem,
};
use vstd::prelude::*;

verus! {

/// How records are written: the field delimiter byte and whether a header
/// record comes first.
#[derive(Debug, Clone, Copy)]
pub struct TsvExporter {
    pub delimiter: u8,
    pub include_headers: bool,
}

impl Default for TsvExporter {
    fn default() -> (r: Self)
        ensures
            r.delimiter == 9u8,
            r.include_headers,
    {
        TsvExporter { delimiter: 9u8, include_headers: true }
    }
}

impl TsvExporter {
    /// Tab-separated, with a header record.
    pub fn new() -> (r: Self)
        ensures
            r.delimiter == 9u8,
            r.include_headers,
    {
        TsvExporter::default()
    }

    /// The same layout, comma-separated.
    pub fn csv() -> (r: Self)
        ensures
            r.delimiter == 44u8,
            r.include_headers,
    {
        TsvExporter { delimiter: 44u8, include_headers: true }
    }
}

/// The name a difficulty is exported under.
pub open spec fn difficulty_name(d: DifficultyLevel) -> Seq<char> {
    match d {
        DifficultyLevel::Beginner => "Beginner"@,
        DifficultyLevel::Elementary => "Elementary"@,
        DifficultyLevel::Intermediate => "Intermediate"@,
        DifficultyLevel::Advanced => "Advanced"@,
        DifficultyLevel::Native => "Native"@,
    }
}

/// The name a frequency is exported under.
pub open spec fn frequency_name(f: FrequencyLevel) -> Seq<char> {
    match f {
        FrequencyLevel::Essential => "Essential"@,
        FrequencyLevel::VeryCommon => "VeryCommon"@,
        FrequencyLevel::Common => "Common"@,
        FrequencyLevel::Uncommon => "Uncommon"@,
        FrequencyLevel::Rare => "Rare"@,
        FrequencyLevel::Archaic => "Archaic"@,
    }
}

impl DifficultyLevel {
    /// The name of the level.
    pub fn name(&self) -> (r: &'static str)
        ensures
            r@ == difficulty_name(*self),
    {
        match self {
            DifficultyLevel::Beginner => "Beginner",
            DifficultyLevel::Elementary => "Elementary",
            DifficultyLevel::Intermediate => "Intermediate",
            DifficultyLevel::Advanced => "Advanced",
            DifficultyLevel::Native => "Native",
        }
    }
}

impl FrequencyLevel {
    /// The name of the level.
    pub fn name(&self) -> (r: &'static str)
        ensures
            r@ == frequency_name(*self),
    {
        match self {
            FrequencyLevel::Essential => "Essential",
            FrequencyLevel::VeryCommon => "VeryCommon",
            FrequencyLevel::Common => "Common",
            FrequencyLevel::Uncommon => "Uncommon",
            FrequencyLevel::Rare => "Rare",
            FrequencyLevel::Archaic => "Archaic",
        }
    }
}

/// An optional text, or the empty text.
pub open spec fn or_empty(o: Option<Seq<char>>) -> Seq<char> {
    match o {
        Some(s) => s,
        None => Seq::empty(),
    }
}

/// A signed integer in decimal.
pub open spec fn signed_decimal(i: int) -> Seq<char> {
    if i < 0 {
        "-"@ + decimal((-i) as nat)
    } else {
        decimal(i as nat)
    }
}

/// A labelled note, where present.
pub open spec fn note_part(label: Seq<char>, o: Option<Seq<char>>) -> Seq<Seq<char>> {
    match o {
        Some(s) => seq![label + s],
        None => Seq::empty(),
    }
}

/// The notes of a card face, in export order.
pub open spec fn note_parts(f: FlashcardContent) -> Seq<Seq<char>> {
    note_part("Usage: "@, opt_view(f.usage_notes)) + note_part("Grammar: "@, opt_view(f.grammar_notes))
        + note_part("Cultural: "@, opt_view(f.cultural_notes))
}

/// The header record.
pub open spec fn header_fields() -> Seq<Seq<char>> {
    seq![
        "Position"@, "Term"@, "IPA"@, "Part of Speech"@, "Front Primary"@, "Front Secondary"@,
        "Front Example"@, "Back Primary"@, "Back Secondary"@, "Back Example"@, "Mnemonic"@,
        "Difficulty"@, "Frequency"@, "Tags"@, "Notes"@,
    ]
}

/// The record of one card: position (the item's id), term, pronunciation,
/// category, the front's three fields, the back's three fields, mnemonic,
/// difficulty, frequency, the front's tags joined by ", ", and its notes
/// joined by " | ".
pub open spec fn record_fields(item: VocabularyItem, s2: Stage2Result) -> Seq<Seq<char>> {
    let f = s2.front;
    let b = s2.back;
    seq![
        match item.id {
            Some(i) => signed_decimal(i as int),
            None => Seq::empty(),
        },
        item.korean@,
        or_empty(opt_view(f.pronunciation_guide)),
        item.category@,
        f.primary_field@,
        or_empty(opt_view(f.secondary_field)),
        or_empty(opt_view(f.example_sentence)),
        b.primary_field@,
        or_empty(opt_view(b.secondary_field)),
        or_empty(opt_view(b.example_sentence)),
        or_empty(opt_view(f.mnemonic_aid)),
        difficulty_name(f.difficulty_level),
        frequency_name(f.frequency_level),
        join(views(f.thematic_tags@) + views(f.grammatical_tags@), ", "@),
        join(note_parts(f), " | "@),
    ]
}

fn text_or_empty(o: &Option<String>) -> (r: String)
    ensures
        r@ == or_empty(opt_view(*o)),
{
    match o {
        Some(s) => s.clone(),
        None => String::new(),
    }
}

fn signed_decimal_string(i: i64) -> (r: String)
    ensures
        r@ == signed_decimal(i as int),
{
    if i < 0 {
        let m = (-(i as i128)) as u64;
        let mut r = String::from_str("-");
        r.append(decimal_string(m).as_str());
        r
    } else {
        decimal_string(i as u64)
    }
}

fn push_note(v: &mut Vec<String>, label: &str, o: &Option<String>)
    ensures
        views(final(v)@) == views(old(v)@) + note_part(label@, opt_view(*o)),
{
    let ghost start = views(v@);
    match o {
        Some(s) => {
            let mut t = String::from_str(label);
            t.append(s.as_str());
            v.push(t);
            assert(views(v@) =~= start + seq![label@ + s@]);
        },
        None => {
            assert(views(v@) =~= start);
        },
    }
}

/// The header record.
pub fn header_record() -> (r: Vec<String>)
    ensures
        views(r@) == header_fields(),
{
    let r = vec![
        String::from_str("Position"),
        String::from_str("Term"),
        String::from_str("IPA"),
        String::from_str("Part of Speech"),
        String::from_str("Front Primary"),
        String::from_str("Front Secondary"),
        String::from_str("Front Example"),
        String::from_str("Back Primary"),
        String::from_str("Back Secondary"),
        String::from_str("Back Example"),
        String::from_str("Mnemonic"),
        String::from_str("Difficulty"),
        String::from_str("Frequency"),
        String::from_str("Tags"),
        String::from_str("Notes"),
    ];
    assert(views(r@) =~= header_fields());
    r
}

/// The notes of a card face.
pub fn notes_of(f: &FlashcardContent) -> (r: Vec<String>)
    ensures
        views(r@) == note_parts(*f),
{
    let mut v: Vec<String> = Vec::new();
    assert(views(v@) =~= Seq::<Seq<char>>::empty());
    push_note(&mut v, "Usage: ", &f.usage_notes);
    push_note(&mut v, "Grammar: ", &f.grammar_notes);
    push_note(&mut v, "Cultural: ", &f.cultural_notes);
    assert(views(v@) =~= note_parts(*f));
    v
}

/// The record of one card.
pub fn export_record(item: &VocabularyItem, s2: &Stage2Result) -> (r: Vec<String>)
    ensures
        views(r@) == record_fields(*item, *s2),
{
    let f = &s2.front;
    let b = &s2.back;
    let position = match item.id {
        Some(i) => signed_decimal_string(i),
        None => String::new(),
    };
    let mut tags = copy_strings(&f.thematic_tags);
    let mut more = copy_strings(&f.grammatical_tags);
    tags.append(&mut more);
    assert(views(tags@) =~= views(f.thematic_tags@) + views(f.grammatical_tags@));
    let notes = notes_of(f);
    let r = vec![
        position,
        item.korean.clone(),
        text_or_empty(&f.pronunciation_guide),
        item.category.clone(),
        f.primary_field.clone(),
        text_or_empty(&f.secondary_field),
        text_or_empty(&f.example_sentence),
        b.primary_field.clone(),
        text_or_empty(&b.secondary_field),
        text_or_empty(&b.example_sentence),
        text_or_empty(&f.mnemonic_aid),
        String::from_str(f.difficulty_level.name()),
        String::from_str(f.frequency_level.name()),
        join_strings(&tags, ", "),
        join_strings(&notes, " | "),
    ];
    assert(views(r@) =~= record_fields(*item, *s2));
    r
}

/// What an export counted: cards, cards by difficulty (elementary cards
/// count only as cards), and cards with a mnemonic, an example or notes.
#[derive(Debug, Clone, Copy)]
pub struct ExportStats {
    pub cards_exported: usize,
    pub beginner_cards: usize,
    pub intermediate_cards: usize,
    pub advanced_cards: usize,
    pub native_cards: usize,
    pub cards_with_mnemonics: usize,
    pub cards_with_examples: usize,
    pub cards_with_notes: usize,
}

impl Default for ExportStats {
    fn default() -> (r: Self)
        ensures
            r.cards_exported == 0 && r.beginner_cards == 0
                && r.intermediate_cards == 0 && r.advanced_cards == 0 && r.native_cards == 0
                && r.cards_with_mnemonics == 0 && r.cards_with_examples == 0 && r.cards_with_notes
                == 0,
    {
        ExportStats {
            cards_exported: 0,
            beginner_cards: 0,
            intermediate_cards: 0,
            advanced_cards: 0,
            native_cards: 0,
            cards_with_mnemonics: 0,
            cards_with_examples: 0,
            cards_with_notes: 0,
        }
    }
}

/// `x + 1` where `b` holds, saturating.
pub open spec fn inc_if(x: usize, b: bool) -> usize {
    if b && x < usize::MAX {
        (x + 1) as usize
    } else {
        x
    }
}

fn bump_if(x: usize, b: bool) -> (r: usize)
    ensures
        r == inc_if(x, b),
{
    if b && x < usize::MAX {
        x + 1
    } else {
        x
    }
}

/// The summary text of an export.
pub open spec fn summary_text(s: ExportStats) -> Seq<char> {
    "Exported "@ + decimal(s.cards_exported as nat) + " cards:\n  - Beginner: "@ + decimal(
        s.beginner_cards as nat,
    ) + "\n  - Intermediate: "@
        + decimal(s.intermediate_cards as nat) + "\n  - Advanced: "@ + decimal(
        s.advanced_cards as nat,
    ) + "\n  - Native: "@ + decimal(s.native_cards as nat) + "\n  - With mnemonics: "@ + decimal(
        s.cards_with_mnemonics as nat,
    ) + "\n  - With examples: "@ + decimal(s.cards_with_examples as nat) + "\n  - With notes: "@
        + decimal(s.cards_with_notes as nat)
}

fn append_count(out: &mut String, label: &str, n: usize)
    ensures
        final(out)@ == old(out)@ + label@ + decimal(n as nat),
{
    out.append(label);
    out.append(decimal_string(n as u64).as_str());
}

impl ExportStats {
    /// Counts one exported card by its front face.
    pub fn record_card(&mut self, front: &FlashcardContent)
        ensures
            final(self).cards_exported == inc_if(old(self).cards_exported, true),
            final(self).beginner_cards == inc_if(
                old(self).beginner_cards,
                front.difficulty_level == DifficultyLevel::Beginner,
            ),
            final(self).intermediate_cards == inc_if(
                old(self).intermediate_cards,
                front.difficulty_level == DifficultyLevel::Intermediate,
            ),
            final(self).advanced_cards == inc_if(
                old(self).advanced_cards,
                front.difficulty_level == DifficultyLevel::Advanced,
            ),
            final(self).native_cards == inc_if(
                old(self).native_cards,
                front.difficulty_level == DifficultyLevel::Native,
            ),
            final(self).cards_with_mnemonics == inc_if(
                old(self).cards_with_mnemonics,
                front.mnemonic_aid is Some,
            ),
            final(self).cards_with_examples == inc_if(
                old(self).cards_with_examples,
                front.example_sentence is Some,
            ),
            final(self).cards_with_notes == inc_if(
                old(self).cards_with_notes,
                note_parts(*front).len() > 0,
            ),
    {
        self.cards_exported = bump_if(self.cards_exported, true);
        let d = front.difficulty_level;
        self.beginner_cards = bump_if(self.beginner_cards, d == DifficultyLevel::Beginner);
        self.intermediate_cards = bump_if(self.intermediate_cards, d == DifficultyLevel::Intermediate);
        self.advanced_cards = bump_if(self.advanced_cards, d == DifficultyLevel::Advanced);
        self.native_cards = bump_if(self.native_cards, d == DifficultyLevel::Native);
        self.cards_with_mnemonics = bump_if(self.cards_with_mnemonics, front.mnemonic_aid.is_some());
        self.cards_with_examples = bump_if(self.cards_with_examples, front.example_sentence.is_some());
        let notes = notes_of(front);
        self.cards_with_notes = bump_if(self.cards_with_notes, notes.len() > 0);
    }

    /// A multi-line summary of the counts.
    pub fn summary(&self) -> (r: String)
        ensures
            r@ == summary_text(*self),
    {
        let mut out = String::from_str("Exported ");
        out.append(decimal_string(self.cards_exported as u64).as_str());
        append_count(&mut out, " cards:\n  - Beginner: ", self.beginner_cards);
        append_count(&mut out, "\n  - Intermediate: ", self.intermediate_cards);
        append_count(&mut out, "\n  - Advanced: ", self.advanced_cards);
        append_count(&mut out, "\n  - Native: ", self.native_cards);
        append_count(&mut out, "\n  - With mnemonics: ", self.cards_with_mnemonics);
        append_count(&mut out, "\n  - With examples: ", self.cards_with_examples);
        append_count(&mut out, "\n  - With notes: ", self.cards_with_notes);
        out
    }
}

/// The records of an export, without the header, and what it counted.
pub fn export_records(results: &Vec<(VocabularyItem, Stage2Result)>) -> (r: (Vec<Vec<String>>, ExportStats))
    ensures
        r.0@.len() == results@.len(),
        forall|k: int|
            0 <= k < results@.len() ==> views((#[trigger] r.0@[k])@) == record_fields(
                results@[k].0,
                results@[k].1,
            ),
        r.1.cards_exported == if results@.len() <= usize::MAX { results@.len() as usize } else { usize::MAX },
{
    let mut rows: Vec<Vec<String>> = Vec::new();
    let mut stats = ExportStats::default();
    let mut i: usize = 0;
    while i < results.len()
        invariant
            i <= results@.len(),
            rows@.len() == i,
            stats.cards_exported == i,
            forall|k: int|
                0 <= k < i ==> views((#[trigger] rows@[k])@) == record_fields(
                    results@[k].0,
                    results@[k].1,
                ),
        decreases results.len() - i,
    {
        let (item, s2) = &results[i];
        rows.push(export_record(item, s2));
        stats.record_card(&s2.front);
        i += 1;
    }
    (rows, stats)
}

} // verus!

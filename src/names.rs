//! Reading level, register and card-type names as callers write them: any
//! letter case, with or without an underscore between words.
use crate::text::concat2;
use crate::vocabulary::{CardType, DifficultyLevel, FormalityLevel, FrequencyLevel};
use vstd::prelude::*;

verus! {

/// The text with every character lowercased as Unicode defines it.
pub uninterp spec fn lower_of(s: Seq<char>) -> Seq<char>;

/// Relies on str::to_lowercase: the lowercase mapping of each character;
/// the result depends on the text alone.
#[verifier::external_body]
fn lowercase(s: &str) -> (r: String)
    ensures
        r@ == lower_of(s@),
{
    s.to_lowercase()
}

fn is(a: &str, b: &str) -> (r: bool)
    ensures
        r == (a@ == b@),
{
    String::from_str(a) == String::from_str(b)
}

/// The frequency named by a lowercased name.
pub open spec fn frequency_named(s: Seq<char>) -> Option<FrequencyLevel> {
    if s == "essential"@ {
        Some(FrequencyLevel::Essential)
    } else if s == "verycommon"@ || s == "very_common"@ {
        Some(FrequencyLevel::VeryCommon)
    } else if s == "common"@ {
        Some(FrequencyLevel::Common)
    } else if s == "uncommon"@ {
        Some(FrequencyLevel::Uncommon)
    } else if s == "rare"@ {
        Some(FrequencyLevel::Rare)
    } else if s == "archaic"@ {
        Some(FrequencyLevel::Archaic)
    } else {
        None
    }
}

/// The register named by a lowercased name.
pub open spec fn formality_named(s: Seq<char>) -> Option<FormalityLevel> {
    if s == "veryformal"@ || s == "very_formal"@ {
        Some(FormalityLevel::VeryFormal)
    } else if s == "formal"@ {
        Some(FormalityLevel::Formal)
    } else if s == "neutral"@ {
        Some(FormalityLevel::Neutral)
    } else if s == "informal"@ {
        Some(FormalityLevel::Informal)
    } else if s == "veryinformal"@ || s == "very_informal"@ {
        Some(FormalityLevel::VeryInformal)
    } else {
        None
    }
}

/// The card type named by a lowercased name.
pub open spec fn card_type_named(s: Seq<char>) -> Option<CardType> {
    if s == "basic"@ {
        Some(CardType::Basic)
    } else if s == "basicreversed"@ || s == "basic_reversed"@ {
        Some(CardType::BasicReversed)
    } else if s == "cloze"@ {
        Some(CardType::Cloze)
    } else if s == "production"@ {
        Some(CardType::Production)
    } else if s == "recognition"@ {
        Some(CardType::Recognition)
    } else {
        None
    }
}

/// The difficulty named by a lowercased name.
pub open spec fn difficulty_named(s: Seq<char>) -> Option<DifficultyLevel> {
    if s == "beginner"@ {
        Some(DifficultyLevel::Beginner)
    } else if s == "elementary"@ {
        Some(DifficultyLevel::Elementary)
    } else if s == "intermediate"@ {
        Some(DifficultyLevel::Intermediate)
    } else if s == "advanced"@ {
        Some(DifficultyLevel::Advanced)
    } else if s == "native"@ {
        Some(DifficultyLevel::Native)
    } else {
        None
    }
}

/// The outcome of reading a name: the value it names, or a message that
/// quotes the name as given.
pub open spec fn read_outcome<T>(named: Option<T>, prefix: Seq<char>, given: Seq<char>, r: Result<T, String>) -> bool {
    match named {
        Some(v) => r == Ok::<T, String>(v),
        None => r matches Err(m) && m@ == prefix + given,
    }
}

impl FrequencyLevel {
    /// The level named by an already lowercased name.
    pub fn from_folded(folded: &str, given: &str) -> (r: Result<Self, String>)
        ensures
            read_outcome(frequency_named(folded@), "Invalid frequency level: "@, given@, r),
    {
        if is(folded, "essential") {
            Ok(FrequencyLevel::Essential)
        } else if is(folded, "verycommon") || is(folded, "very_common") {
            Ok(FrequencyLevel::VeryCommon)
        } else if is(folded, "common") {
            Ok(FrequencyLevel::Common)
        } else if is(folded, "uncommon") {
            Ok(FrequencyLevel::Uncommon)
        } else if is(folded, "rare") {
            Ok(FrequencyLevel::Rare)
        } else if is(folded, "archaic") {
            Ok(FrequencyLevel::Archaic)
        } else {
            Err(concat2("Invalid frequency level: ", given))
        }
    }

    /// The level a name stands for, in any letter case.
    pub fn parse_name(s: &str) -> (r: Result<Self, String>)
        ensures
            read_outcome(frequency_named(lower_of(s@)), "Invalid frequency level: "@, s@, r),
    {
        let folded = lowercase(s);
        FrequencyLevel::from_folded(folded.as_str(), s)
    }
}

impl FormalityLevel {
    /// The register named by an already lowercased name.
    pub fn from_folded(folded: &str, given: &str) -> (r: Result<Self, String>)
        ensures
            read_outcome(formality_named(folded@), "Invalid formality level: "@, given@, r),
    {
        if is(folded, "veryformal") || is(folded, "very_formal") {
            Ok(FormalityLevel::VeryFormal)
        } else if is(folded, "formal") {
            Ok(FormalityLevel::Formal)
        } else if is(folded, "neutral") {
            Ok(FormalityLevel::Neutral)
        } else if is(folded, "informal") {
            Ok(FormalityLevel::Informal)
        } else if is(folded, "veryinformal") || is(folded, "very_informal") {
            Ok(FormalityLevel::VeryInformal)
        } else {
            Err(concat2("Invalid formality level: ", given))
        }
    }

    /// The register a name stands for, in any letter case.
    pub fn parse_name(s: &str) -> (r: Result<Self, String>)
        ensures
            read_outcome(formality_named(lower_of(s@)), "Invalid formality level: "@, s@, r),
    {
        let folded = lowercase(s);
        FormalityLevel::from_folded(folded.as_str(), s)
    }
}

impl CardType {
    /// The card type named by an already lowercased name.
    pub fn from_folded(folded: &str, given: &str) -> (r: Result<Self, String>)
        ensures
            read_outcome(card_type_named(folded@), "Invalid card type: "@, given@, r),
    {
        if is(folded, "basic") {
            Ok(CardType::Basic)
        } else if is(folded, "basicreversed") || is(folded, "basic_reversed") {
            Ok(CardType::BasicReversed)
        } else if is(folded, "cloze") {
            Ok(CardType::Cloze)
        } else if is(folded, "production") {
            Ok(CardType::Production)
        } else if is(folded, "recognition") {
            Ok(CardType::Recognition)
        } else {
            Err(concat2("Invalid card type: ", given))
        }
    }

    /// The card type a name stands for, in any letter case.
    pub fn parse_name(s: &str) -> (r: Result<Self, String>)
        ensures
            read_outcome(card_type_named(lower_of(s@)), "Invalid card type: "@, s@, r),
    {
        let folded = lowercase(s);
        CardType::from_folded(folded.as_str(), s)
    }
}

impl DifficultyLevel {
    /// The difficulty named by an already lowercased name.
    pub fn from_folded(folded: &str, given: &str) -> (r: Result<Self, String>)
        ensures
            read_outcome(difficulty_named(folded@), "Invalid difficulty level: "@, given@, r),
    {
        if is(folded, "beginner") {
            Ok(DifficultyLevel::Beginner)
        } else if is(folded, "elementary") {
            Ok(DifficultyLevel::Elementary)
        } else if is(folded, "intermediate") {
            Ok(DifficultyLevel::Intermediate)
        } else if is(folded, "advanced") {
            Ok(DifficultyLevel::Advanced)
        } else if is(folded, "native") {
            Ok(DifficultyLevel::Native)
        } else {
            Err(concat2("Invalid difficulty level: ", given))
        }
    }

    /// The difficulty a name stands for, in any letter case.
    pub fn parse_name(s: &str) -> (r: Result<Self, String>)
        ensures
            read_outcome(difficulty_named(lower_of(s@)), "Invalid difficulty level: "@, s@, r),
    {
        let folded = lowercase(s);
        DifficultyLevel::from_folded(folded.as_str(), s)
    }
}

impl std::str::FromStr for FrequencyLevel {
    type Err = String;

    fn from_str(s: &str) -> Result<Self, String> {
        FrequencyLevel::parse_name(s)
    }
}

impl std::str::FromStr for FormalityLevel {
    type Err = String;

    fn from_str(s: &str) -> Result<Self, String> {
        FormalityLevel::parse_name(s)
    }
}

impl std::str::FromStr for CardType {
    type Err = String;

    fn from_str(s: &str) -> Result<Self, String> {
        CardType::parse_name(s)
    }
}

} // verus!

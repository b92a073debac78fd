//! The wire shapes of text generation and embedding, as far as they carry
//! exact values; the sampling knobs ride with the application layer.
use vstd::prelude::*;

verus! {

pub struct TextPrompt {
    pub text: String,
}

pub struct SafetySetting {
    pub category: HarmCategory,
    pub threshold: HarmBlockThreshold,
}

pub enum HarmCategory {
    HarmCategoryDerogatory,
    HarmCategoryToxicity,
    HarmCategoryViolence,
    HarmCategorySexual,
    HarmCategoryMedical,
    HarmCategoryDangerous,
}

pub enum HarmBlockThreshold {
    HarmBlockThresholdUnspecified,
    BlockLowAndAbove,
    BlockMediumAndAbove,
    BlockOnlyHigh,
    BlockNone,
}

pub struct GenerateTextResponse {
    pub candidates: Vec<TextCompletion>,
    pub filters: Option<Vec<ContentFilter>>,
    pub safety_feedback: Option<Vec<SafetyFeedback>>,
}

pub struct TextCompletion {
    pub output: String,
    pub safety_ratings: Option<Vec<SafetyRating>>,
    pub citation_metadata: Option<CitationMetadata>,
}

pub struct SafetyRating {
    pub category: HarmCategory,
    pub probability: HarmProbability,
}

pub enum HarmProbability {
    Negligible,
    Low,
    Medium,
    High,
}

pub struct SafetyFeedback {
    pub rating: SafetyRating,
    pub setting: SafetySetting,
}

pub enum BlockedReason {
    BlockedReasonUnspecified,
    Safety,
    Other,
}

pub struct ContentFilter {
    pub reason: BlockedReason,
    pub message: String,
}

pub struct CitationSource {
    pub start_index: Option<i32>,
    pub end_index: Option<i32>,
    pub uri: Option<String>,
    pub license: Option<String>,
}

pub struct CitationMetadata {
    pub citation_sources: Option<Vec<CitationSource>>,
}

pub struct EmbedTextRequest {
    pub text: String,
}

} // verus!

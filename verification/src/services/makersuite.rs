//! The text-generation and embedding endpoints of the PaLM-family provider.
pub mod types;

use vstd::prelude::*;

verus! {

pub enum MakerSuiteEndpoints {
    GenerateText,
    EmbedText,
}

impl MakerSuiteEndpoints {
    /// The upstream path of the endpoint.
    pub fn path(&self) -> (r: &'static str)
        ensures
            r@ == match self {
                MakerSuiteEndpoints::GenerateText => "/v1beta2/models/text-bison-001:generateText"@,
                MakerSuiteEndpoints::EmbedText => "/v1beta2/models/embedding-gecko-001:embedText"@,
            },
    {
        match self {
            MakerSuiteEndpoints::GenerateText => "/v1beta2/models/text-bison-001:generateText",
            MakerSuiteEndpoints::EmbedText => "/v1beta2/models/embedding-gecko-001:embedText",
        }
    }
}

} // verus!

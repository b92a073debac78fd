//! The chat, embedding and image endpoints of the largest text provider.
pub mod types;

use vstd::prelude::*;

verus! {

#[derive(Clone)]
pub enum OpenAIEndpoints {
    ModelList,
    ModelRetrieve,
    ChatCompletions,
    ImageGenerations,
    Embeddings,
}

impl OpenAIEndpoints {
    /// The upstream path of the endpoint.
    pub fn path(&self) -> (r: &'static str)
        ensures
            r@ == match self {
                OpenAIEndpoints::ModelList => "/v1/models"@,
                OpenAIEndpoints::ModelRetrieve => "/v1/models/:model_id"@,
                OpenAIEndpoints::ChatCompletions => "/v1/chat/completions"@,
                OpenAIEndpoints::ImageGenerations => "/v1/images/generations"@,
                OpenAIEndpoints::Embeddings => "/v1/embeddings"@,
            },
    {
        match self {
            OpenAIEndpoints::ModelList => "/v1/models",
            OpenAIEndpoints::ModelRetrieve => "/v1/models/:model_id",
            OpenAIEndpoints::ChatCompletions => "/v1/chat/completions",
            OpenAIEndpoints::ImageGenerations => "/v1/images/generations",
            OpenAIEndpoints::Embeddings => "/v1/embeddings",
        }
    }

    /// The price of one call, in the smallest payable unit.
    pub fn pricing(&self) -> (r: u64)
        ensures
            r == 1000u64,
    {
        match self {
            OpenAIEndpoints::ModelList => 1000,
            OpenAIEndpoints::ModelRetrieve => 1000,
            OpenAIEndpoints::ChatCompletions => 1000,
            OpenAIEndpoints::ImageGenerations => 1000,
            OpenAIEndpoints::Embeddings => 1000,
        }
    }
}

} // verus!

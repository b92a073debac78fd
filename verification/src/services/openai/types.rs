//! The wire shapes of the chat, embedding, image and file endpoints, as far
//! as they carry exact values. Serialization derives live on the copies the
//! application layer keeps.
use vstd::prelude::*;

verus! {

pub struct FunctionCall {
    pub name: String,
}

pub struct ChatCompletionResponse {
    pub id: String,
    pub object: String,
    pub created: i64,
    pub model: String,
    pub choices: Vec<Choice>,
    pub usage: Usage,
}

pub struct Choice {
    pub index: i32,
    pub message: Message,
    pub finish_reason: String,
}

pub struct Usage {
    pub prompt_tokens: i32,
    pub completion_tokens: Option<i32>,
    pub total_tokens: i32,
}

pub struct Message {
    pub role: String,
    pub content: String,
}

pub struct ChatCompletionChunk {
    pub id: String,
    pub object: String,
    pub created: i64,
    pub model: String,
    pub choices: Vec<ChoiceChunk>,
}

pub struct ChoiceChunk {
    pub index: i32,
    pub delta: Delta,
    pub finish_reason: String,
}

pub struct Delta {
    pub content: String,
}

pub struct ImageCreationRequest {
    pub prompt: String,
    pub n: Option<i32>,
    pub size: Option<String>,
    pub response_format: Option<String>,
    pub user: Option<String>,
}

pub struct ImageResponse {
    pub created: i64,
    pub data: Vec<ImageData>,
}

pub struct ImageData {
    pub url: String,
}

pub struct ImageEditRequest {
    pub image: String,
    pub mask: Option<String>,
    pub prompt: String,
    pub n: Option<i32>,
    pub size: Option<String>,
    pub response_format: Option<String>,
    pub user: Option<String>,
}

pub struct ImageVariationRequest {
    pub image: String,
    pub n: Option<i32>,
    pub size: Option<String>,
    pub response_format: Option<String>,
    pub user: Option<String>,
}

pub enum Input {
    Single(String),
    Multiple(Vec<String>),
}

pub struct EmbeddingRequest {
    pub model: String,
    pub input: Input,
    pub user: Option<String>,
}

pub struct AudioResponse {
    pub text: String,
}

pub struct FileListResponse {
    pub data: Vec<FileResponse>,
    pub object: String,
}

pub struct FileResponse {
    pub id: String,
    pub object: String,
    pub bytes: i32,
    pub created_at: i64,
    pub filename: String,
    pub purpose: String,
    pub status: String,
    pub status_details: Option<String>,
}

pub struct FileUploadRequest {
    pub file: String,
    pub purpose: String,
}

pub struct FileDeletionResponse {
    pub id: String,
    pub object: String,
    pub deleted: bool,
}

pub struct FileContentResponse {
    pub content: String,
}

} // verus!

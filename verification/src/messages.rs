//! The request and response messages of the service, and the plain values
//! that carry a backend's answers.
//!
//! Floating-point fields (embeddings, scores, sampling parameters, memory
//! figures) are carried as their IEEE-754 bit patterns: the service copies
//! them and never computes with them.

use vstd::prelude::*;

verus! {

/// An identifier on the wire: its hyphenated text.
#[derive(Debug, Clone, PartialEq, Eq)]
pub struct Uuid {
    pub value: String,
}

/// A point in time: seconds since the Unix epoch and the nanoseconds within
/// that second.
#[derive(Debug, Clone, Copy, PartialEq, Eq)]
pub struct Timestamp {
    pub seconds: i64,
    pub nanos: i32,
}

// ---- RAM-Lake operations -------------------------------------------------

#[derive(Debug, Clone, PartialEq, Eq)]
pub struct StoreCodeRequest {
    pub path: String,
    pub content: String,
    pub language: String,
}

#[derive(Debug, Clone, PartialEq, Eq)]
pub struct StoreCodeResponse {
    pub id: Option<Uuid>,
}

#[derive(Debug, Clone, PartialEq, Eq)]
pub struct IndexCodeRequest {
    pub code_id: Option<Uuid>,
    /// Bit patterns of the `f32` components.
    pub embeddings: Vec<u32>,
}

#[derive(Debug, Clone, PartialEq, Eq)]
pub struct IndexCodeResponse {
    pub success: bool,
}

#[derive(Debug, Clone, PartialEq, Eq)]
pub struct StoreEventRequest {
    pub event_type: String,
    pub content: String,
}

#[derive(Debug, Clone, PartialEq, Eq)]
pub struct StoreEventResponse {
    pub id: Option<Uuid>,
}

#[derive(Debug, Clone, PartialEq, Eq)]
pub struct StoreMetadataRequest {
    pub source_id: Option<Uuid>,
    pub relation: String,
    pub target_id: Option<Uuid>,
}

#[derive(Debug, Clone, PartialEq, Eq)]
pub struct StoreMetadataResponse {
    pub success: bool,
}

#[derive(Debug, Clone, PartialEq, Eq)]
pub struct SearchSimilarRequest {
    /// Bit patterns of the `f32` components.
    pub embedding: Vec<u32>,
    pub limit: u32,
}

/// One hit of a similarity search.
#[derive(Debug, Clone, PartialEq, Eq)]
pub struct SearchSimilarResult {
    pub id: Option<Uuid>,
    /// Bit pattern of the `f32` score.
    pub score: u32,
}

#[derive(Debug, Clone, PartialEq, Eq)]
pub struct SearchSimilarResponse {
    pub results: Vec<SearchSimilarResult>,
}

#[derive(Debug, Clone, PartialEq, Eq)]
pub struct GetCodeRequest {
    pub id: Option<Uuid>,
}

#[derive(Debug, Clone, PartialEq, Eq)]
pub struct GetCodeResponse {
    pub path: String,
    pub content: String,
    pub language: String,
}

#[derive(Debug, Clone, PartialEq, Eq)]
pub struct GetEventRequest {
    pub id: Option<Uuid>,
}

#[derive(Debug, Clone, PartialEq, Eq)]
pub struct GetEventResponse {
    pub event_type: String,
    pub content: String,
    pub timestamp: Option<Timestamp>,
}

#[derive(Debug, Clone, PartialEq, Eq)]
pub struct GetRelatedRequest {
    pub id: Option<Uuid>,
    pub relation: Option<String>,
}

/// One relation between two stored entries.
#[derive(Debug, Clone, PartialEq, Eq)]
pub struct Relation {
    pub source_id: Option<Uuid>,
    pub relation: String,
    pub target_id: Option<Uuid>,
}

#[derive(Debug, Clone, PartialEq, Eq)]
pub struct GetRelatedResponse {
    pub relations: Vec<Relation>,
}

/// What the RAM-Lake store reports of its size and contents.
#[derive(Debug, Clone, Copy, PartialEq, Eq)]
pub struct RamLakeMetrics {
    pub total_size: u64,
    pub used_size: u64,
    pub vector_store_size: u64,
    pub code_store_size: u64,
    pub history_store_size: u64,
    pub metadata_store_size: u64,
    pub indexed_files: usize,
    pub vector_entries: usize,
    pub history_events: usize,
}

#[derive(Debug, Clone, Copy, PartialEq, Eq)]
pub struct RamLakeMetricsResponse {
    pub total_size: u64,
    pub used_size: u64,
    pub vector_store_size: u64,
    pub code_store_size: u64,
    pub history_store_size: u64,
    pub metadata_store_size: u64,
    pub indexed_files: u32,
    pub vector_entries: u32,
    pub history_events: u32,
}

// ---- Model operations ----------------------------------------------------

#[derive(Debug, Clone, PartialEq, Eq)]
pub struct LoadModelRequest {
    pub model_name: String,
}

#[derive(Debug, Clone, PartialEq, Eq)]
pub struct LoadModelResponse {
    pub success: bool,
    pub error_message: Option<String>,
    pub alternative_model: Option<String>,
}

#[derive(Debug, Clone, PartialEq, Eq)]
pub struct UnloadModelRequest {
    pub model_name: String,
}

#[derive(Debug, Clone, PartialEq, Eq)]
pub struct UnloadModelResponse {
    pub success: bool,
    pub error_message: Option<String>,
}

#[derive(Debug, Clone, PartialEq, Eq)]
pub struct RunInferenceRequest {
    pub model_name: String,
    pub input_text: String,
    pub max_tokens: Option<i32>,
    /// Bit patterns of the optional `f32` sampling parameters.
    pub temperature: Option<u32>,
    pub top_p: Option<u32>,
    pub frequency_penalty: Option<u32>,
    pub presence_penalty: Option<u32>,
}

#[derive(Debug, Clone, PartialEq, Eq)]
pub struct RunInferenceResponse {
    pub model_name: String,
    pub generated_text: String,
    pub tokens_generated: i32,
    pub error_message: Option<String>,
}

/// What the model manager answers to an inference: for each key of its
/// result map that the service reads, the JSON text of the value (or, for
/// `tokens_generated`, the value as an unsigned integer), or `None` where
/// the key is absent (or, for `tokens_generated`, not an unsigned integer).
#[derive(Debug, Clone, PartialEq, Eq)]
pub struct InferenceOutput {
    pub error: Option<String>,
    pub generated_text: Option<String>,
    pub tokens_generated: Option<u64>,
    pub model: Option<String>,
}

#[derive(Debug, Clone, PartialEq, Eq)]
pub struct GenerateEmbeddingRequest {
    pub model_name: Option<String>,
    pub text: String,
}

#[derive(Debug, Clone, PartialEq, Eq)]
pub struct GenerateEmbeddingResponse {
    /// Bit patterns of the `f32` components.
    pub embedding: Vec<u32>,
    pub error_message: Option<String>,
}

/// The `embeddings` entry of an embedding result.
#[derive(Debug, Clone, PartialEq, Eq)]
pub enum EmbeddingsField {
    /// The key is absent.
    Missing,
    /// The value is not a JSON array.
    NotArray,
    /// The array, each element read as a number (0.0 where it is not one)
    /// and narrowed to `f32`, given by bit pattern.
    Values(Vec<u32>),
}

/// What the model manager answers to an embedding request: the JSON text of
/// its `error` entry, if any, and its `embeddings` entry.
#[derive(Debug, Clone, PartialEq, Eq)]
pub struct EmbeddingOutput {
    pub error: Option<String>,
    pub embeddings: EmbeddingsField,
}

#[derive(Debug, Clone, PartialEq, Eq)]
pub struct GetModelStatusRequest {
    pub model_name: String,
}

#[derive(Debug, Clone, PartialEq, Eq)]
pub struct GetModelStatusResponse {
    pub name: String,
    pub status: String,
    pub model_type: String,
    pub task: String,
    /// Bit pattern of the `f32` memory figure.
    pub memory_gb: u32,
    /// Bit pattern of the optional `f64` time of last use.
    pub last_used: Option<u64>,
    pub priority: i32,
    pub error_message: Option<String>,
}

/// What the model manager answers to a status request: whether its status
/// map is empty, the JSON text of each string entry the service reads, the
/// memory figure already narrowed to `f32` (0.0 where absent or not a
/// number), the time of last use where it is a number, and the priority
/// where it is a signed integer.
#[derive(Debug, Clone, PartialEq, Eq)]
pub struct ModelStatusOutput {
    pub is_empty: bool,
    pub name: Option<String>,
    pub status: Option<String>,
    pub model_type: Option<String>,
    pub task: Option<String>,
    pub memory_gb: u32,
    pub last_used: Option<u64>,
    pub priority: Option<i64>,
}

#[derive(Debug, Clone, PartialEq, Eq)]
pub struct MemoryUsageResponse {
    /// Bit patterns of the `f32` figures.
    pub total_limit_gb: u32,
    pub current_usage_gb: u32,
    pub available_gb: u32,
    /// Each model's usage, by name, as the bit pattern of an `f32`.
    pub model_usage_gb: Vec<(String, u32)>,
}

#[derive(Debug, Clone, PartialEq, Eq)]
pub struct LoadedModelsResponse {
    pub model_names: Vec<String>,
}

} // verus!

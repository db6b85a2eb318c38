//! The remote procedures that reach the model manager.
//!
//! As for the store, each procedure is a request step and a reply step; the
//! manager's errors arrive as their display text, and its JSON results as
//! the plain values that the service reads from them.

use vstd::prelude::*;

use crate::messages::{
    EmbeddingOutput, EmbeddingsField, GenerateEmbeddingRequest, GenerateEmbeddingResponse,
    GetModelStatusRequest, GetModelStatusResponse, InferenceOutput, LoadModelRequest,
    LoadModelResponse, LoadedModelsResponse, MemoryUsageResponse, ModelStatusOutput,
    RunInferenceRequest, RunInferenceResponse, UnloadModelRequest, UnloadModelResponse,
};
use crate::service::DragonNodeServiceImpl;
use crate::status::{Code, Status, backend_failure, failure_message};
use crate::uuid_text::is_error;

verus! {

/// Bit pattern of the `f32` 0.7, the default sampling temperature.
pub const DEFAULT_TEMPERATURE_BITS: u32 = 0x3F33_3333u32;

/// Bit pattern of the `f32` 0.9, the default nucleus-sampling threshold.
pub const DEFAULT_TOP_P_BITS: u32 = 0x3F66_6666u32;

/// Bit pattern of the `f32` 0.0, the default of both penalties.
pub const DEFAULT_PENALTY_BITS: u32 = 0u32;

/// The number of tokens generated when the request names none.
pub const DEFAULT_MAX_TOKENS: i32 = 512i32;

/// What the next step of `load_model` is after the manager's answer to the
/// load itself.
#[derive(Debug, PartialEq, Eq)]
pub enum LoadModelStep {
    /// Answer the request.
    Done(Result<LoadModelResponse, Status>),
    /// Ask the manager for an alternative to the named model, then answer
    /// with `load_model_alternative_reply`.
    FindAlternative(String),
}

/// The manager call of `run_inference`.
#[derive(Debug, Clone, PartialEq, Eq)]
pub struct InferenceCall {
    pub model_name: String,
    pub input_text: String,
    pub max_tokens: usize,
    /// Bit patterns of the `f32` sampling parameters.
    pub temperature: u32,
    pub top_p: u32,
    pub frequency_penalty: u32,
    pub presence_penalty: u32,
}

/// The manager call of `generate_embedding`.
#[derive(Debug, Clone, PartialEq, Eq)]
pub struct EmbeddingCall {
    pub model_name: String,
    pub text: String,
}

/// `text` is the optional `field`'s string, or empty where it is absent.
pub open spec fn text_or_empty(field: Option<String>, text: String) -> bool {
    match field {
        Some(s) => text == s,
        None => text@ == Seq::<char>::empty(),
    }
}

/// `field` holds a message with the given text.
pub open spec fn has_message(field: Option<String>, text: Seq<char>) -> bool {
    field matches Some(m) && m@ == text
}

/// The message refusing a status request for a model the manager does not
/// know.
pub open spec fn model_not_found_message(model_name: Seq<char>) -> Seq<char> {
    "Model "@ + model_name + " not found"@
}

fn string_or_empty(field: Option<String>) -> (text: String)
    ensures
        text_or_empty(field, text),
{
    match field {
        Some(s) => s,
        None => String::new(),
    }
}

impl<R, M> DragonNodeServiceImpl<R, M> {
    /// Request step of `load_model`: the model to load.
    pub fn load_model(&self, request: LoadModelRequest) -> (model_name: String)
        ensures
            model_name == request.model_name,
    {
        request.model_name
    }

    /// Reply step of `load_model` after the load: a success where the
    /// manager loaded the model; the `Internal` error "Failed to load model:
    /// " and the manager's error where it failed; else the search for an
    /// alternative to the model.
    pub fn load_model_reply(&self, model_name: String, loaded: Result<bool, String>) -> (step: LoadModelStep)
        ensures
            match loaded {
                Ok(true) => step == LoadModelStep::Done(Ok(LoadModelResponse {
                    success: true,
                    error_message: None,
                    alternative_model: None,
                })),
                Ok(false) => step == LoadModelStep::FindAlternative(model_name),
                Err(e) => step matches LoadModelStep::Done(r)
                    && is_error(r, Code::Internal, failure_message("Failed to load model: "@, e@)),
            },
    {
        match loaded {
            Ok(true) => LoadModelStep::Done(
                Ok(LoadModelResponse { success: true, error_message: None, alternative_model: None }),
            ),
            Ok(false) => LoadModelStep::FindAlternative(model_name),
            Err(e) => LoadModelStep::Done(Err(backend_failure("Failed to load model: ", &e))),
        }
    }

    /// Reply step of `load_model` after the search for an alternative: a
    /// failure "Insufficient memory to load model" that names the
    /// alternative, if any, or the `Internal` error "Failed to find
    /// alternative model: " and the manager's error.
    pub fn load_model_alternative_reply(&self, alternative: Result<Option<String>, String>) -> (response: Result<LoadModelResponse, Status>)
        ensures
            match alternative {
                Ok(alt) => response matches Ok(r) && !r.success
                    && has_message(r.error_message, "Insufficient memory to load model"@)
                    && r.alternative_model == alt,
                Err(e) => is_error(response, Code::Internal, failure_message("Failed to find alternative model: "@, e@)),
            },
    {
        match alternative {
            Ok(alt) => Ok(LoadModelResponse {
                success: false,
                error_message: Some(String::from_str("Insufficient memory to load model")),
                alternative_model: alt,
            }),
            Err(e) => Err(backend_failure("Failed to find alternative model: ", &e)),
        }
    }

    /// Request step of `unload_model`: the model to unload.
    pub fn unload_model(&self, request: UnloadModelRequest) -> (model_name: String)
        ensures
            model_name == request.model_name,
    {
        request.model_name
    }

    /// Reply step of `unload_model`: success as the manager reports it, with
    /// the message "Model not loaded or cannot be unloaded" on a refusal, or
    /// the `Internal` error "Failed to unload model: " and the manager's
    /// error.
    pub fn unload_model_reply(&self, unloaded: Result<bool, String>) -> (response: Result<UnloadModelResponse, Status>)
        ensures
            match unloaded {
                Ok(true) => response == Ok::<UnloadModelResponse, Status>(
                    UnloadModelResponse { success: true, error_message: None },
                ),
                Ok(false) => response matches Ok(r) && !r.success
                    && has_message(r.error_message, "Model not loaded or cannot be unloaded"@),
                Err(e) => is_error(response, Code::Internal, failure_message("Failed to unload model: "@, e@)),
            },
    {
        match unloaded {
            Ok(true) => Ok(UnloadModelResponse { success: true, error_message: None }),
            Ok(false) => Ok(UnloadModelResponse {
                success: false,
                error_message: Some(String::from_str("Model not loaded or cannot be unloaded")),
            }),
            Err(e) => Err(backend_failure("Failed to unload model: ", &e)),
        }
    }

    /// Request step of `run_inference`: the model and input as given, and
    /// each optional parameter or its default (512 tokens, temperature 0.7,
    /// top-p 0.9, no penalties); the token count is widened to `usize` as
    /// `as` does.
    pub fn run_inference(&self, request: RunInferenceRequest) -> (call: InferenceCall)
        ensures
            call.model_name == request.model_name,
            call.input_text == request.input_text,
            call.max_tokens == request.max_tokens.unwrap_or(DEFAULT_MAX_TOKENS) as usize,
            call.temperature == request.temperature.unwrap_or(DEFAULT_TEMPERATURE_BITS),
            call.top_p == request.top_p.unwrap_or(DEFAULT_TOP_P_BITS),
            call.frequency_penalty == request.frequency_penalty.unwrap_or(DEFAULT_PENALTY_BITS),
            call.presence_penalty == request.presence_penalty.unwrap_or(DEFAULT_PENALTY_BITS),
    {
        InferenceCall {
            model_name: request.model_name,
            input_text: request.input_text,
            max_tokens: request.max_tokens.unwrap_or(DEFAULT_MAX_TOKENS) as usize,
            temperature: request.temperature.unwrap_or(DEFAULT_TEMPERATURE_BITS),
            top_p: request.top_p.unwrap_or(DEFAULT_TOP_P_BITS),
            frequency_penalty: request.frequency_penalty.unwrap_or(DEFAULT_PENALTY_BITS),
            presence_penalty: request.presence_penalty.unwrap_or(DEFAULT_PENALTY_BITS),
        }
    }

    /// Reply step of `run_inference`, for the requested `model_name`:
    /// - the manager's failure is the `Internal` error "Failed to run
    ///   inference: " and its error;
    /// - an `error` entry in the result is answered, not raised: the requested
    ///   model, no text, no tokens, and that entry as the message;
    /// - a result without `generated_text` is the `Internal` error "No
    ///   generated text in result";
    /// - else the result's model (the requested one where it names none), its
    ///   text, and its token count (0 where it has none) narrowed to `i32`.
    pub fn run_inference_reply(&self, model_name: String, output: Result<InferenceOutput, String>) -> (response: Result<RunInferenceResponse, Status>)
        ensures
            match output {
                Err(e) => is_error(response, Code::Internal, failure_message("Failed to run inference: "@, e@)),
                Ok(out) => match out.error {
                    Some(err) => response matches Ok(r) && r.model_name == model_name
                        && r.generated_text@ == Seq::<char>::empty() && r.tokens_generated == 0
                        && r.error_message == Some(err),
                    None => match out.generated_text {
                        None => is_error(response, Code::Internal, "No generated text in result"@),
                        Some(text) => response matches Ok(r)
                            && r.model_name == out.model.unwrap_or(model_name)
                            && r.generated_text == text
                            && r.tokens_generated == out.tokens_generated.unwrap_or(0) as i32
                            && r.error_message is None,
                    },
                },
            },
    {
        let out = match output {
            Ok(out) => out,
            Err(e) => return Err(backend_failure("Failed to run inference: ", &e)),
        };
        if let Some(err) = out.error {
            return Ok(RunInferenceResponse {
                model_name,
                generated_text: String::new(),
                tokens_generated: 0,
                error_message: Some(err),
            });
        }
        let generated_text = match out.generated_text {
            Some(text) => text,
            None => return Err(Status::internal("No generated text in result")),
        };
        let tokens_generated = out.tokens_generated.unwrap_or(0) as i32;
        Ok(RunInferenceResponse {
            model_name: out.model.unwrap_or(model_name),
            generated_text,
            tokens_generated,
            error_message: None,
        })
    }

    /// Request step of `generate_embedding`: the requested model, or
    /// "embedder" where the request names none, and the text.
    pub fn generate_embedding(&self, request: GenerateEmbeddingRequest) -> (call: EmbeddingCall)
        ensures
            match request.model_name {
                Some(name) => call.model_name == name,
                None => call.model_name@ == "embedder"@,
            },
            call.text == request.text,
    {
        let model_name = match request.model_name {
            Some(name) => name,
            None => String::from_str("embedder"),
        };
        EmbeddingCall { model_name, text: request.text }
    }

    /// Reply step of `generate_embedding`:
    /// - the manager's failure is the `Internal` error "Failed to generate
    ///   embedding: " and its error;
    /// - an `error` entry is answered with no embedding and that message;
    /// - a result without `embeddings` is the `Internal` error "No embeddings
    ///   in result", one whose `embeddings` is not an array the `Internal`
    ///   error "Embeddings is not an array";
    /// - else the embedding as read.
    pub fn generate_embedding_reply(&self, output: Result<EmbeddingOutput, String>) -> (response: Result<GenerateEmbeddingResponse, Status>)
        ensures
            match output {
                Err(e) => is_error(response, Code::Internal, failure_message("Failed to generate embedding: "@, e@)),
                Ok(out) => match out.error {
                    Some(err) => response matches Ok(r) && r.embedding@ == Seq::<u32>::empty()
                        && r.error_message == Some(err),
                    None => match out.embeddings {
                        EmbeddingsField::Missing => is_error(response, Code::Internal, "No embeddings in result"@),
                        EmbeddingsField::NotArray => is_error(response, Code::Internal, "Embeddings is not an array"@),
                        EmbeddingsField::Values(v) => response matches Ok(r) && r.embedding@ == v@
                            && r.error_message is None,
                    },
                },
            },
    {
        let out = match output {
            Ok(out) => out,
            Err(e) => return Err(backend_failure("Failed to generate embedding: ", &e)),
        };
        if let Some(err) = out.error {
            return Ok(GenerateEmbeddingResponse { embedding: Vec::new(), error_message: Some(err) });
        }
        match out.embeddings {
            EmbeddingsField::Missing => Err(Status::internal("No embeddings in result")),
            EmbeddingsField::NotArray => Err(Status::internal("Embeddings is not an array")),
            EmbeddingsField::Values(embedding) => Ok(GenerateEmbeddingResponse { embedding, error_message: None }),
        }
    }

    /// Request step of `get_model_status`: the model to describe.
    pub fn get_model_status(&self, request: GetModelStatusRequest) -> (model_name: String)
        ensures
            model_name == request.model_name,
    {
        request.model_name
    }

    /// Reply step of `get_model_status`, for the requested `model_name`: the
    /// manager's failure is the `Internal` error "Failed to get model status:
    /// " and its error; an empty status is the `NotFound` error "Model <name>
    /// not found"; else the status's entries, each text empty where absent,
    /// the memory figure and time of last use as read, and the priority (0
    /// where absent) narrowed to `i32`.
    pub fn get_model_status_reply(&self, model_name: String, output: Result<ModelStatusOutput, String>) -> (response: Result<GetModelStatusResponse, Status>)
        ensures
            match output {
                Err(e) => is_error(response, Code::Internal, failure_message("Failed to get model status: "@, e@)),
                Ok(out) => if out.is_empty {
                    is_error(response, Code::NotFound, model_not_found_message(model_name@))
                } else {
                    response matches Ok(r)
                        && text_or_empty(out.name, r.name)
                        && text_or_empty(out.status, r.status)
                        && text_or_empty(out.model_type, r.model_type)
                        && text_or_empty(out.task, r.task)
                        && r.memory_gb == out.memory_gb
                        && r.last_used == out.last_used
                        && r.priority == out.priority.unwrap_or(0) as i32
                        && r.error_message is None
                },
            },
    {
        let out = match output {
            Ok(out) => out,
            Err(e) => return Err(backend_failure("Failed to get model status: ", &e)),
        };
        if out.is_empty {
            let message = String::from_str("Model ").concat(model_name.as_str()).concat(" not found");
            return Err(Status::not_found(message));
        }
        let priority = out.priority.unwrap_or(0) as i32;
        Ok(GetModelStatusResponse {
            name: string_or_empty(out.name),
            status: string_or_empty(out.status),
            model_type: string_or_empty(out.model_type),
            task: string_or_empty(out.task),
            memory_gb: out.memory_gb,
            last_used: out.last_used,
            priority,
            error_message: None,
        })
    }

    /// `get_memory_usage`, whose manager call needs no request step: the
    /// usage as read, or the `Internal` error "Failed to get memory usage: "
    /// and the manager's error.
    pub fn get_memory_usage(&self, usage: Result<MemoryUsageResponse, String>) -> (response: Result<MemoryUsageResponse, Status>)
        ensures
            match usage {
                Ok(u) => response == Ok::<MemoryUsageResponse, Status>(u),
                Err(e) => is_error(response, Code::Internal, failure_message("Failed to get memory usage: "@, e@)),
            },
    {
        match usage {
            Ok(u) => Ok(u),
            Err(e) => Err(backend_failure("Failed to get memory usage: ", &e)),
        }
    }

    /// `get_loaded_models`, whose manager call needs no request step: the
    /// names as listed, or the `Internal` error
    /// "Failed to get loaded models: " and the manager's error.
    pub fn get_loaded_models(&self, models: Result<Vec<String>, String>) -> (response: Result<LoadedModelsResponse, Status>)
        ensures
            match models {
                Ok(names) => response matches Ok(r) && r.model_names@ == names@,
                Err(e) => is_error(response, Code::Internal, failure_message("Failed to get loaded models: "@, e@)),
            },
    {
        match models {
            Ok(model_names) => Ok(LoadedModelsResponse { model_names }),
            Err(e) => Err(backend_failure("Failed to get loaded models: ", &e)),
        }
    }
}

} // verus!

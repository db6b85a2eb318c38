use dragon_node::messages::{
    EmbeddingOutput, EmbeddingsField, GenerateEmbeddingRequest, GetModelStatusRequest,
    InferenceOutput, LoadModelRequest, LoadModelResponse, MemoryUsageResponse, ModelStatusOutput,
    RunInferenceRequest, UnloadModelRequest,
};
use dragon_node::model_rpc::LoadModelStep;
use dragon_node::service::DragonNodeServiceImpl;
use dragon_node::status::{Code, Status};

fn service() -> DragonNodeServiceImpl<(), ()> {
    DragonNodeServiceImpl::new((), ())
}

fn internal(message: &str) -> Status {
    Status { code: Code::Internal, message: message.to_string() }
}

fn s(text: &str) -> String {
    text.to_string()
}

#[test]
fn load_model_passes_name() {
    assert_eq!(service().load_model(LoadModelRequest { model_name: s("llama") }), "llama");
}

#[test]
fn load_model_reply_success() {
    let step = service().load_model_reply(s("llama"), Ok(true));
    assert_eq!(
        step,
        LoadModelStep::Done(Ok(LoadModelResponse { success: true, error_message: None, alternative_model: None }))
    );
}

#[test]
fn load_model_reply_asks_for_alternative() {
    let step = service().load_model_reply(s("llama"), Ok(false));
    assert_eq!(step, LoadModelStep::FindAlternative(s("llama")));
}

#[test]
fn load_model_reply_failure() {
    let step = service().load_model_reply(s("llama"), Err(s("no file")));
    assert_eq!(step, LoadModelStep::Done(Err(internal("Failed to load model: no file"))));
}

#[test]
fn load_model_alternative_reply_cases() {
    let svc = service();
    let r = svc.load_model_alternative_reply(Ok(Some(s("tiny")))).unwrap();
    assert!(!r.success);
    assert_eq!(r.error_message, Some(s("Insufficient memory to load model")));
    assert_eq!(r.alternative_model, Some(s("tiny")));
    let r = svc.load_model_alternative_reply(Ok(None)).unwrap();
    assert_eq!(r.alternative_model, None);
    assert_eq!(r.error_message, Some(s("Insufficient memory to load model")));
    assert_eq!(svc.load_model_alternative_reply(Err(s("x"))), Err(internal("Failed to find alternative model: x")));
}

#[test]
fn unload_model_cases() {
    let svc = service();
    assert_eq!(svc.unload_model(UnloadModelRequest { model_name: s("m") }), "m");
    let r = svc.unload_model_reply(Ok(true)).unwrap();
    assert!(r.success);
    assert_eq!(r.error_message, None);
    let r = svc.unload_model_reply(Ok(false)).unwrap();
    assert!(!r.success);
    assert_eq!(r.error_message, Some(s("Model not loaded or cannot be unloaded")));
    assert_eq!(svc.unload_model_reply(Err(s("busy"))), Err(internal("Failed to unload model: busy")));
}

fn inference_request() -> RunInferenceRequest {
    RunInferenceRequest {
        model_name: s("llama"),
        input_text: s("hi"),
        max_tokens: None,
        temperature: None,
        top_p: None,
        frequency_penalty: None,
        presence_penalty: None,
    }
}

#[test]
fn run_inference_defaults() {
    let call = service().run_inference(inference_request());
    assert_eq!(call.model_name, "llama");
    assert_eq!(call.input_text, "hi");
    assert_eq!(call.max_tokens, 512);
    assert_eq!(f32::from_bits(call.temperature), 0.7f32);
    assert_eq!(f32::from_bits(call.top_p), 0.9f32);
    assert_eq!(f32::from_bits(call.frequency_penalty), 0.0f32);
    assert_eq!(f32::from_bits(call.presence_penalty), 0.0f32);
}

#[test]
fn run_inference_given_parameters() {
    let mut req = inference_request();
    req.max_tokens = Some(64);
    req.temperature = Some(1.5f32.to_bits());
    req.top_p = Some(0.5f32.to_bits());
    req.frequency_penalty = Some(0.1f32.to_bits());
    req.presence_penalty = Some(0.2f32.to_bits());
    let call = service().run_inference(req);
    assert_eq!(call.max_tokens, 64);
    assert_eq!(f32::from_bits(call.temperature), 1.5);
    assert_eq!(f32::from_bits(call.top_p), 0.5);
    assert_eq!(f32::from_bits(call.frequency_penalty), 0.1);
    assert_eq!(f32::from_bits(call.presence_penalty), 0.2);
}

#[test]
fn run_inference_negative_max_tokens_wraps() {
    let mut req = inference_request();
    req.max_tokens = Some(-1);
    assert_eq!(service().run_inference(req).max_tokens, usize::MAX);
}

fn output(error: Option<&str>, text: Option<&str>, tokens: Option<u64>, model: Option<&str>) -> InferenceOutput {
    InferenceOutput {
        error: error.map(s),
        generated_text: text.map(s),
        tokens_generated: tokens,
        model: model.map(s),
    }
}

#[test]
fn run_inference_reply_success() {
    let r = service()
        .run_inference_reply(s("llama"), Ok(output(None, Some("\"hello\""), Some(5), Some("\"llama-7b\""))))
        .unwrap();
    assert_eq!(r.model_name, "\"llama-7b\"");
    assert_eq!(r.generated_text, "\"hello\"");
    assert_eq!(r.tokens_generated, 5);
    assert_eq!(r.error_message, None);
}

#[test]
fn run_inference_reply_defaults_model_and_tokens() {
    let r = service().run_inference_reply(s("llama"), Ok(output(None, Some("t"), None, None))).unwrap();
    assert_eq!(r.model_name, "llama");
    assert_eq!(r.tokens_generated, 0);
}

#[test]
fn run_inference_reply_narrows_tokens() {
    let r = service()
        .run_inference_reply(s("llama"), Ok(output(None, Some("t"), Some((1u64 << 32) + 7), None)))
        .unwrap();
    assert_eq!(r.tokens_generated, 7);
}

#[test]
fn run_inference_reply_error_entry_is_answered() {
    let r = service()
        .run_inference_reply(s("llama"), Ok(output(Some("\"oom\""), Some("ignored"), Some(3), Some("other"))))
        .unwrap();
    assert_eq!(r.model_name, "llama");
    assert_eq!(r.generated_text, "");
    assert_eq!(r.tokens_generated, 0);
    assert_eq!(r.error_message, Some(s("\"oom\"")));
}

#[test]
fn run_inference_reply_without_text() {
    let r = service().run_inference_reply(s("llama"), Ok(output(None, None, Some(3), None)));
    assert_eq!(r, Err(internal("No generated text in result")));
}

#[test]
fn run_inference_reply_failure() {
    let r = service().run_inference_reply(s("llama"), Err(s("crash")));
    assert_eq!(r, Err(internal("Failed to run inference: crash")));
}

#[test]
fn generate_embedding_default_model() {
    let svc = service();
    let call = svc.generate_embedding(GenerateEmbeddingRequest { model_name: None, text: s("abc") });
    assert_eq!(call.model_name, "embedder");
    assert_eq!(call.text, "abc");
    let call = svc.generate_embedding(GenerateEmbeddingRequest { model_name: Some(s("bge")), text: s("abc") });
    assert_eq!(call.model_name, "bge");
}

#[test]
fn generate_embedding_reply_cases() {
    let svc = service();
    let ok = svc
        .generate_embedding_reply(Ok(EmbeddingOutput { error: None, embeddings: EmbeddingsField::Values(vec![1.0f32.to_bits(), 0]) }))
        .unwrap();
    assert_eq!(ok.embedding, vec![1.0f32.to_bits(), 0]);
    assert_eq!(ok.error_message, None);
    let answered = svc
        .generate_embedding_reply(Ok(EmbeddingOutput { error: Some(s("\"bad\"")), embeddings: EmbeddingsField::Missing }))
        .unwrap();
    assert!(answered.embedding.is_empty());
    assert_eq!(answered.error_message, Some(s("\"bad\"")));
    assert_eq!(
        svc.generate_embedding_reply(Ok(EmbeddingOutput { error: None, embeddings: EmbeddingsField::Missing })),
        Err(internal("No embeddings in result"))
    );
    assert_eq!(
        svc.generate_embedding_reply(Ok(EmbeddingOutput { error: None, embeddings: EmbeddingsField::NotArray })),
        Err(internal("Embeddings is not an array"))
    );
    assert_eq!(svc.generate_embedding_reply(Err(s("e"))), Err(internal("Failed to generate embedding: e")));
}

fn status_output() -> ModelStatusOutput {
    ModelStatusOutput {
        is_empty: false,
        name: Some(s("\"llama\"")),
        status: Some(s("\"loaded\"")),
        model_type: None,
        task: Some(s("\"chat\"")),
        memory_gb: 4.5f32.to_bits(),
        last_used: Some(1.5f64.to_bits()),
        priority: Some(3),
    }
}

#[test]
fn get_model_status_cases() {
    let svc = service();
    assert_eq!(svc.get_model_status(GetModelStatusRequest { model_name: s("llama") }), "llama");
    let r = svc.get_model_status_reply(s("llama"), Ok(status_output())).unwrap();
    assert_eq!(r.name, "\"llama\"");
    assert_eq!(r.status, "\"loaded\"");
    assert_eq!(r.model_type, "");
    assert_eq!(r.task, "\"chat\"");
    assert_eq!(f32::from_bits(r.memory_gb), 4.5);
    assert_eq!(r.last_used.map(f64::from_bits), Some(1.5));
    assert_eq!(r.priority, 3);
    assert_eq!(r.error_message, None);
}

#[test]
fn get_model_status_priority_narrowed_and_defaulted() {
    let svc = service();
    let mut out = status_output();
    out.priority = Some(-(1i64 << 32) - 2);
    assert_eq!(svc.get_model_status_reply(s("m"), Ok(out)).unwrap().priority, -2);
    let mut out = status_output();
    out.priority = None;
    assert_eq!(svc.get_model_status_reply(s("m"), Ok(out)).unwrap().priority, 0);
}

#[test]
fn get_model_status_not_found_and_failure() {
    let svc = service();
    let mut out = status_output();
    out.is_empty = true;
    assert_eq!(
        svc.get_model_status_reply(s("llama"), Ok(out)),
        Err(Status { code: Code::NotFound, message: s("Model llama not found") })
    );
    assert_eq!(svc.get_model_status_reply(s("llama"), Err(s("e"))), Err(internal("Failed to get model status: e")));
}

#[test]
fn memory_usage_and_loaded_models() {
    let svc = service();
    let usage = MemoryUsageResponse {
        total_limit_gb: 16.0f32.to_bits(),
        current_usage_gb: 4.0f32.to_bits(),
        available_gb: 12.0f32.to_bits(),
        model_usage_gb: vec![(s("llama"), 4.0f32.to_bits())],
    };
    assert_eq!(svc.get_memory_usage(Ok(usage.clone())), Ok(usage));
    assert_eq!(svc.get_memory_usage(Err(s("e"))), Err(internal("Failed to get memory usage: e")));
    assert_eq!(svc.get_loaded_models(Ok(vec![s("a"), s("b")])).unwrap().model_names, vec![s("a"), s("b")]);
    assert_eq!(svc.get_loaded_models(Err(s("e"))), Err(internal("Failed to get loaded models: e")));
}

//! What each model-manager procedure answers, stated over every request,
//! every manager answer and every result that the procedure may give.

use vstd::prelude::*;

use crate::laws::internal_failure;
use crate::messages::{
    EmbeddingOutput, EmbeddingsField, GenerateEmbeddingRequest, GenerateEmbeddingResponse,
    GetModelStatusRequest, GetModelStatusResponse, InferenceOutput, LoadModelRequest,
    LoadModelResponse, LoadedModelsResponse, MemoryUsageResponse, ModelStatusOutput,
    RunInferenceRequest, RunInferenceResponse, UnloadModelRequest, UnloadModelResponse,
};
use crate::model_rpc::{EmbeddingCall, InferenceCall, LoadModelStep};
use crate::ram_lake_laws::low_32_signed;
use crate::service::DragonNodeServiceImpl;
use crate::status::{Code, Status};

verus! {

/// `option` holds a message with exactly the given text.
pub open spec fn message_is(option: Option<String>, text: Seq<char>) -> bool {
    option is Some && option->Some_0@ == text
}

/// `load_model` loads the model named in the request.
pub proof fn lemma_load_model_request<R, M>(
    svc: &DragonNodeServiceImpl<R, M>,
    request: LoadModelRequest,
    model_name: String,
)
    requires
        call_ensures(DragonNodeServiceImpl::<R, M>::load_model, (svc, request), model_name),
    ensures
        model_name@ == request.model_name@,
{
}

/// A model that loads is answered as a success with no message and no
/// alternative; a model that does not fit leads to the search for an
/// alternative to that same model; a manager failure is reported after
/// "Failed to load model: ".
pub proof fn lemma_load_model_reply<R, M>(
    svc: &DragonNodeServiceImpl<R, M>,
    model_name: String,
    loaded: Result<bool, String>,
    step: LoadModelStep,
)
    requires
        call_ensures(DragonNodeServiceImpl::<R, M>::load_model_reply, (svc, model_name, loaded), step),
    ensures
        loaded == Ok::<bool, String>(true) ==> step is Done && step->Done_0 is Ok
            && step->Done_0->Ok_0.success && step->Done_0->Ok_0.error_message is None
            && step->Done_0->Ok_0.alternative_model is None,
        loaded == Ok::<bool, String>(false) ==> step is FindAlternative
            && step->FindAlternative_0@ == model_name@,
        loaded is Err ==> step is Done && internal_failure(step->Done_0, "Failed to load model: "@, loaded->Err_0@),
{
}

/// After a model that does not fit, the answer is a failure with the
/// message "Insufficient memory to load model" and exactly the alternative
/// the manager found (if any); a manager failure is reported after "Failed
/// to find alternative model: ".
pub proof fn lemma_load_model_alternative_reply<R, M>(
    svc: &DragonNodeServiceImpl<R, M>,
    alternative: Result<Option<String>, String>,
    response: Result<LoadModelResponse, Status>,
)
    requires
        call_ensures(DragonNodeServiceImpl::<R, M>::load_model_alternative_reply, (svc, alternative), response),
    ensures
        alternative is Ok ==> response is Ok && !response->Ok_0.success
            && message_is(response->Ok_0.error_message, "Insufficient memory to load model"@)
            && response->Ok_0.alternative_model == alternative->Ok_0,
        alternative is Err ==> internal_failure(
            response,
            "Failed to find alternative model: "@,
            alternative->Err_0@,
        ),
{
}

/// `unload_model` unloads the model named in the request.
pub proof fn lemma_unload_model_request<R, M>(
    svc: &DragonNodeServiceImpl<R, M>,
    request: UnloadModelRequest,
    model_name: String,
)
    requires
        call_ensures(DragonNodeServiceImpl::<R, M>::unload_model, (svc, request), model_name),
    ensures
        model_name@ == request.model_name@,
{
}

/// An unload reports success exactly as the manager did, with a message
/// exactly when it failed; a manager failure is reported after "Failed to
/// unload model: ".
pub proof fn lemma_unload_model_reply<R, M>(
    svc: &DragonNodeServiceImpl<R, M>,
    unloaded: Result<bool, String>,
    response: Result<UnloadModelResponse, Status>,
)
    requires
        call_ensures(DragonNodeServiceImpl::<R, M>::unload_model_reply, (svc, unloaded), response),
    ensures
        unloaded is Ok ==> response is Ok && response->Ok_0.success == unloaded->Ok_0
            && (response->Ok_0.error_message is None <==> unloaded->Ok_0),
        unloaded == Ok::<bool, String>(false) ==> message_is(
            response->Ok_0.error_message,
            "Model not loaded or cannot be unloaded"@,
        ),
        unloaded is Err ==> internal_failure(response, "Failed to unload model: "@, unloaded->Err_0@),
{
}

/// `run_inference` sends the model and input as given, each parameter the
/// request gives unchanged, and otherwise 512 tokens, temperature 0.7
/// (bits 0x3F33_3333), top-p 0.9 (bits 0x3F66_6666) and no penalties; a
/// negative token count becomes a count beyond any `i32` whose low 32 bits
/// are the sent count.
pub proof fn lemma_run_inference_request<R, M>(
    svc: &DragonNodeServiceImpl<R, M>,
    request: RunInferenceRequest,
    call: InferenceCall,
)
    requires
        call_ensures(DragonNodeServiceImpl::<R, M>::run_inference, (svc, request), call),
    ensures
        call.model_name@ == request.model_name@,
        call.input_text@ == request.input_text@,
        request.max_tokens is None ==> call.max_tokens == 512,
        request.max_tokens is Some && request.max_tokens->Some_0 >= 0 ==> call.max_tokens as int
            == request.max_tokens->Some_0 as int,
        request.max_tokens is Some && request.max_tokens->Some_0 < 0 ==> call.max_tokens as int
            > i32::MAX as int && (call.max_tokens as u32) as i32 == request.max_tokens->Some_0,
        call.temperature == (if request.temperature is Some { request.temperature->Some_0 } else { 0x3F33_3333u32 }),
        call.top_p == (if request.top_p is Some { request.top_p->Some_0 } else { 0x3F66_6666u32 }),
        call.frequency_penalty == (if request.frequency_penalty is Some { request.frequency_penalty->Some_0 } else { 0u32 }),
        call.presence_penalty == (if request.presence_penalty is Some { request.presence_penalty->Some_0 } else { 0u32 }),
{
    if request.max_tokens is Some {
        let t = request.max_tokens->Some_0;
        let m = t as usize;
        assert(t >= 0 ==> m as int == t as int) by (bit_vector)
            requires
                m == t as usize,
        ;
        assert(t < 0 ==> m > 0x7fff_ffffusize && (m as u32) as i32 == t) by (bit_vector)
            requires
                m == t as usize,
        ;
    }
}

/// An inference answer: a manager failure is reported after "Failed to run
/// inference: "; an `error` entry is answered for the requested model with
/// no text, no tokens and that entry as the message; a result without text
/// is the `Internal` error "No generated text in result"; otherwise the
/// result's model (the requested one where it names none), its text, and
/// its token count (0 where it has none) in its low 32 bits read as signed.
pub proof fn lemma_run_inference_reply<R, M>(
    svc: &DragonNodeServiceImpl<R, M>,
    model_name: String,
    output: Result<InferenceOutput, String>,
    response: Result<RunInferenceResponse, Status>,
)
    requires
        call_ensures(DragonNodeServiceImpl::<R, M>::run_inference_reply, (svc, model_name, output), response),
    ensures
        output is Err ==> internal_failure(response, "Failed to run inference: "@, output->Err_0@),
        output is Ok && output->Ok_0.error is Some ==> {
            let r = response->Ok_0;
            &&& response is Ok
            &&& r.model_name@ == model_name@
            &&& r.generated_text@.len() == 0
            &&& r.tokens_generated == 0
            &&& message_is(r.error_message, output->Ok_0.error->Some_0@)
        },
        output is Ok && output->Ok_0.error is None && output->Ok_0.generated_text is None ==> {
            &&& response is Err
            &&& response->Err_0.code == Code::Internal
            &&& response->Err_0.message@ == "No generated text in result"@
        },
        output is Ok && output->Ok_0.error is None && output->Ok_0.generated_text is Some ==> {
            let out = output->Ok_0;
            let r = response->Ok_0;
            &&& response is Ok
            &&& r.generated_text@ == out.generated_text->Some_0@
            &&& (out.model is Some ==> r.model_name@ == out.model->Some_0@)
            &&& (out.model is None ==> r.model_name@ == model_name@)
            &&& (out.tokens_generated is Some ==> r.tokens_generated as int == low_32_signed(
                out.tokens_generated->Some_0 as int,
            ))
            &&& (out.tokens_generated is None ==> r.tokens_generated == 0)
            &&& r.error_message is None
        },
{
    if output is Ok && output->Ok_0.tokens_generated is Some {
        lemma_u64_low_32_signed(output->Ok_0.tokens_generated->Some_0);
    }
}

proof fn lemma_u64_low_32_signed(t: u64)
    ensures
        (t as i32) as int == low_32_signed(t as int),
{
    let m = t as i32;
    let v = t % 0x1_0000_0000u64;
    assert(v < 0x8000_0000u64 ==> m as int == v as int) by (bit_vector)
        requires
            m == t as i32,
            v == t % 0x1_0000_0000u64,
    ;
    assert(v >= 0x8000_0000u64 ==> m as int == v as int - 0x1_0000_0000) by (bit_vector)
        requires
            m == t as i32,
            v == t % 0x1_0000_0000u64,
    ;
}

proof fn lemma_i64_low_32_signed(t: i64)
    ensures
        (t as i32) as int == low_32_signed(t as int),
{
    let m = t as i32;
    let u = t as u64;
    lemma_u64_low_32_signed(u);
    assert(m == u as i32) by (bit_vector)
        requires
            m == t as i32,
            u == t as u64,
    ;
    assert(t >= 0 ==> u as int == t as int) by (bit_vector)
        requires
            u == t as u64,
    ;
    assert(t < 0 ==> u as int == t as int + 0x1_0000_0000_0000_0000) by (bit_vector)
        requires
            u == t as u64,
    ;
}

/// `generate_embedding` asks the named model, or "embedder" where the
/// request names none, for the text as sent.
pub proof fn lemma_generate_embedding_request<R, M>(
    svc: &DragonNodeServiceImpl<R, M>,
    request: GenerateEmbeddingRequest,
    call: EmbeddingCall,
)
    requires
        call_ensures(DragonNodeServiceImpl::<R, M>::generate_embedding, (svc, request), call),
    ensures
        request.model_name is Some ==> call.model_name@ == request.model_name->Some_0@,
        request.model_name is None ==> call.model_name@ == "embedder"@,
        call.text@ == request.text@,
{
}

/// An embedding answer: a manager failure is reported after "Failed to
/// generate embedding: "; an `error` entry is answered with no embedding
/// and that message; a missing or non-array `embeddings` entry is an
/// `Internal` error; otherwise exactly the values read.
pub proof fn lemma_generate_embedding_reply<R, M>(
    svc: &DragonNodeServiceImpl<R, M>,
    output: Result<EmbeddingOutput, String>,
    response: Result<GenerateEmbeddingResponse, Status>,
)
    requires
        call_ensures(DragonNodeServiceImpl::<R, M>::generate_embedding_reply, (svc, output), response),
    ensures
        output is Err ==> internal_failure(response, "Failed to generate embedding: "@, output->Err_0@),
        output is Ok && output->Ok_0.error is Some ==> response is Ok
            && response->Ok_0.embedding.len() == 0
            && message_is(response->Ok_0.error_message, output->Ok_0.error->Some_0@),
        output is Ok && output->Ok_0.error is None ==> match output->Ok_0.embeddings {
            EmbeddingsField::Missing => response is Err && response->Err_0.code == Code::Internal
                && response->Err_0.message@ == "No embeddings in result"@,
            EmbeddingsField::NotArray => response is Err && response->Err_0.code == Code::Internal
                && response->Err_0.message@ == "Embeddings is not an array"@,
            EmbeddingsField::Values(v) => response is Ok && response->Ok_0.embedding@ == v@
                && response->Ok_0.error_message is None,
        },
{
}

/// `get_model_status` describes the model named in the request.
pub proof fn lemma_get_model_status_request<R, M>(
    svc: &DragonNodeServiceImpl<R, M>,
    request: GetModelStatusRequest,
    model_name: String,
)
    requires
        call_ensures(DragonNodeServiceImpl::<R, M>::get_model_status, (svc, request), model_name),
    ensures
        model_name@ == request.model_name@,
{
}

/// A model status answer: a manager failure is reported after "Failed to
/// get model status: "; an empty status is the `NotFound` error "Model
/// <name> not found"; otherwise each text entry exactly as present (whatever
/// its length) and empty only where absent, the memory figure and time of
/// last use unchanged, and the priority (0 where absent) in its low 32 bits
/// read as signed.
pub proof fn lemma_model_status_reports_entries<R, M>(
    svc: &DragonNodeServiceImpl<R, M>,
    model_name: String,
    output: Result<ModelStatusOutput, String>,
    response: Result<GetModelStatusResponse, Status>,
)
    requires
        call_ensures(DragonNodeServiceImpl::<R, M>::get_model_status_reply, (svc, model_name, output), response),
    ensures
        output is Err ==> internal_failure(response, "Failed to get model status: "@, output->Err_0@),
        output is Ok && output->Ok_0.is_empty ==> {
            &&& response is Err
            &&& response->Err_0.code == Code::NotFound
            &&& response->Err_0.message@ == "Model "@ + model_name@ + " not found"@
        },
        output is Ok && !output->Ok_0.is_empty ==> {
            let out = output->Ok_0;
            let r = response->Ok_0;
            &&& response is Ok
            &&& (out.name is Some ==> r.name == out.name->Some_0)
            &&& (out.name is None ==> r.name@.len() == 0)
            &&& (out.status is Some ==> r.status == out.status->Some_0)
            &&& (out.status is None ==> r.status@.len() == 0)
            &&& (out.model_type is Some ==> r.model_type == out.model_type->Some_0)
            &&& (out.model_type is None ==> r.model_type@.len() == 0)
            &&& (out.task is Some ==> r.task == out.task->Some_0)
            &&& (out.task is None ==> r.task@.len() == 0)
            &&& r.memory_gb == out.memory_gb
            &&& r.last_used == out.last_used
            &&& (out.priority is Some ==> r.priority as int == low_32_signed(out.priority->Some_0 as int))
            &&& (out.priority is None ==> r.priority == 0)
            &&& r.error_message is None
        },
{
    if output is Ok && output->Ok_0.priority is Some {
        lemma_i64_low_32_signed(output->Ok_0.priority->Some_0);
    }
}

/// The memory usage is answered exactly as read; a manager failure is
/// reported after "Failed to get memory usage: ".
pub proof fn lemma_memory_usage_reply<R, M>(
    svc: &DragonNodeServiceImpl<R, M>,
    usage: Result<MemoryUsageResponse, String>,
    response: Result<MemoryUsageResponse, Status>,
)
    requires
        call_ensures(DragonNodeServiceImpl::<R, M>::get_memory_usage, (svc, usage), response),
    ensures
        usage is Ok ==> response is Ok && response->Ok_0 == usage->Ok_0,
        usage is Err ==> internal_failure(response, "Failed to get memory usage: "@, usage->Err_0@),
{
}

/// The loaded models are answered exactly as listed, every one in order; a
/// manager failure is reported after "Failed to get loaded models: ".
pub proof fn lemma_loaded_models_reply<R, M>(
    svc: &DragonNodeServiceImpl<R, M>,
    models: Result<Vec<String>, String>,
    response: Result<LoadedModelsResponse, Status>,
)
    requires
        call_ensures(DragonNodeServiceImpl::<R, M>::get_loaded_models, (svc, models), response),
    ensures
        models is Ok ==> response is Ok && response->Ok_0.model_names.len() == models->Ok_0.len()
            && forall|i: int| 0 <= i < models->Ok_0.len() ==> #[trigger] response->Ok_0.model_names[i] == models->Ok_0[i],
        models is Err ==> internal_failure(response, "Failed to get loaded models: "@, models->Err_0@),
{
}

} // verus!

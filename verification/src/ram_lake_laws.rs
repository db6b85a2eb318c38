//! What each RAM-Lake procedure answers, stated over every request, every
//! store answer and every result that the procedure may give.

use vstd::prelude::*;

use crate::laws::{carries_id, internal_failure, refused};
use crate::messages::{
    GetCodeRequest, GetCodeResponse, GetEventRequest, GetEventResponse, GetRelatedRequest,
    GetRelatedResponse, IndexCodeRequest, IndexCodeResponse, RamLakeMetrics, RamLakeMetricsResponse,
    SearchSimilarRequest, SearchSimilarResponse, StoreCodeRequest, StoreCodeResponse,
    StoreEventRequest, StoreEventResponse, StoreMetadataRequest, StoreMetadataResponse,
};
use crate::ram_lake_rpc::{
    EventRecord, GetRelatedCall, IndexCodeCall, SearchSimilarCall, StoreCodeCall, StoreEventCall,
    StoreMetadataCall,
};
use crate::service::DragonNodeServiceImpl;
use crate::status::Status;
use crate::uuid_text::uuid_parse_str;

verus! {

/// The value of the low 32 bits of `x`, read as a signed number.
pub open spec fn low_32_signed(x: int) -> int {
    let v = x % 0x1_0000_0000;
    if v < 0x8000_0000 {
        v
    } else {
        v - 0x1_0000_0000
    }
}

/// `store_code` stores the code exactly as sent.
pub proof fn lemma_store_code_sends_the_request<R, M>(
    svc: &DragonNodeServiceImpl<R, M>,
    request: StoreCodeRequest,
    call: StoreCodeCall,
)
    requires
        call_ensures(DragonNodeServiceImpl::<R, M>::store_code, (svc, request), call),
    ensures
        call.path@ == request.path@ && call.content@ == request.content@
            && call.language@ == request.language@,
{
}

/// A stored entry is answered with its identifier's text; a store failure
/// with "Failed to store code: " and the store's error.
pub proof fn lemma_store_code_reply<R, M>(
    svc: &DragonNodeServiceImpl<R, M>,
    stored: Result<u128, String>,
    response: Result<StoreCodeResponse, Status>,
)
    requires
        call_ensures(DragonNodeServiceImpl::<R, M>::store_code_reply, (svc, stored), response),
    ensures
        stored is Ok ==> response is Ok && carries_id(response->Ok_0.id, stored->Ok_0),
        stored is Err ==> internal_failure(response, "Failed to store code: "@, stored->Err_0@),
{
}

/// `index_code` indexes exactly the entry that the parser reads from
/// `code_id`, with the embeddings as sent, and is refused where the field is
/// absent or unreadable.
pub proof fn lemma_index_code_request<R, M>(
    svc: &DragonNodeServiceImpl<R, M>,
    request: IndexCodeRequest,
    call: Result<IndexCodeCall, Status>,
)
    requires
        call_ensures(DragonNodeServiceImpl::<R, M>::index_code, (svc, request), call),
    ensures
        request.code_id is None ==> refused(call, "Missing code_id"@),
        request.code_id is Some && uuid_parse_str(request.code_id->Some_0.value@) is None
            ==> refused(call, "Invalid UUID format"@),
        request.code_id is Some && uuid_parse_str(request.code_id->Some_0.value@) is Some ==> {
            &&& call is Ok
            &&& Some(call->Ok_0.code_id) == uuid_parse_str(request.code_id->Some_0.value@)
            &&& call->Ok_0.embeddings@ == request.embeddings@
        },
{
}

/// A successful indexing answers `success`; a failure reports the store's
/// error after "Failed to index code: ".
pub proof fn lemma_index_code_reply<R, M>(
    svc: &DragonNodeServiceImpl<R, M>,
    indexed: Result<(), String>,
    response: Result<IndexCodeResponse, Status>,
)
    requires
        call_ensures(DragonNodeServiceImpl::<R, M>::index_code_reply, (svc, indexed), response),
    ensures
        indexed is Ok ==> response is Ok && response->Ok_0.success,
        indexed is Err ==> internal_failure(response, "Failed to index code: "@, indexed->Err_0@),
{
}

/// `store_event` stores the event exactly as sent.
pub proof fn lemma_store_event_sends_the_request<R, M>(
    svc: &DragonNodeServiceImpl<R, M>,
    request: StoreEventRequest,
    call: StoreEventCall,
)
    requires
        call_ensures(DragonNodeServiceImpl::<R, M>::store_event, (svc, request), call),
    ensures
        call.event_type@ == request.event_type@ && call.content@ == request.content@,
{
}

/// A stored event is answered with its identifier's text; a store failure
/// with "Failed to store event: " and the store's error.
pub proof fn lemma_store_event_reply<R, M>(
    svc: &DragonNodeServiceImpl<R, M>,
    stored: Result<u128, String>,
    response: Result<StoreEventResponse, Status>,
)
    requires
        call_ensures(DragonNodeServiceImpl::<R, M>::store_event_reply, (svc, stored), response),
    ensures
        stored is Ok ==> response is Ok && carries_id(response->Ok_0.id, stored->Ok_0),
        stored is Err ==> internal_failure(response, "Failed to store event: "@, stored->Err_0@),
{
}

/// `store_metadata` relates exactly the two entries that the parser reads,
/// with the relation as sent; it checks that both fields are present before
/// it reads either, and reads the source before the target.
pub proof fn lemma_store_metadata_request<R, M>(
    svc: &DragonNodeServiceImpl<R, M>,
    request: StoreMetadataRequest,
    call: Result<StoreMetadataCall, Status>,
)
    requires
        call_ensures(DragonNodeServiceImpl::<R, M>::store_metadata, (svc, request), call),
    ensures
        request.source_id is None ==> refused(call, "Missing source_id"@),
        request.source_id is Some && request.target_id is None ==> refused(call, "Missing target_id"@),
        request.source_id is Some && request.target_id is Some ==> {
            let s = uuid_parse_str(request.source_id->Some_0.value@);
            let t = uuid_parse_str(request.target_id->Some_0.value@);
            &&& s is None ==> refused(call, "Invalid source UUID format"@)
            &&& s is Some && t is None ==> refused(call, "Invalid target UUID format"@)
            &&& s is Some && t is Some ==> call is Ok && Some(call->Ok_0.source) == s
                && Some(call->Ok_0.target) == t && call->Ok_0.relation@ == request.relation@
        },
{
}

/// A stored relation answers `success`; a failure reports the store's
/// error after "Failed to store metadata: ".
pub proof fn lemma_store_metadata_reply<R, M>(
    svc: &DragonNodeServiceImpl<R, M>,
    stored: Result<(), String>,
    response: Result<StoreMetadataResponse, Status>,
)
    requires
        call_ensures(DragonNodeServiceImpl::<R, M>::store_metadata_reply, (svc, stored), response),
    ensures
        stored is Ok ==> response is Ok && response->Ok_0.success,
        stored is Err ==> internal_failure(response, "Failed to store metadata: "@, stored->Err_0@),
{
}

/// `search_similar` searches with the embedding as sent and the limit's
/// value unchanged.
pub proof fn lemma_search_similar_request<R, M>(
    svc: &DragonNodeServiceImpl<R, M>,
    request: SearchSimilarRequest,
    call: SearchSimilarCall,
)
    requires
        call_ensures(DragonNodeServiceImpl::<R, M>::search_similar, (svc, request), call),
    ensures
        call.embedding@ == request.embedding@,
        call.limit as int == request.limit as int,
{
}

/// A similarity search answers with every hit the store found, in the
/// store's order, each score exactly the store's score (the same bit
/// pattern) and each identifier the text of the hit's identifier; a store
/// failure is reported after "Failed to search similar: ".
pub proof fn lemma_search_similar_keeps_every_hit<R, M>(
    svc: &DragonNodeServiceImpl<R, M>,
    found: Result<Vec<(u128, u32)>, String>,
    response: Result<SearchSimilarResponse, Status>,
)
    requires
        call_ensures(DragonNodeServiceImpl::<R, M>::search_similar_reply, (svc, found), response),
    ensures
        found is Err ==> internal_failure(response, "Failed to search similar: "@, found->Err_0@),
        found is Ok ==> response is Ok && response->Ok_0.results.len() == found->Ok_0.len(),
        found is Ok ==> forall|i: int|
            0 <= i < found->Ok_0.len() ==> #[trigger] response->Ok_0.results[i].score == found->Ok_0[i].1
                && carries_id(response->Ok_0.results[i].id, found->Ok_0[i].0),
{
    if found is Ok {
        let hits = found->Ok_0;
        let r = response->Ok_0;
        assert forall|i: int| 0 <= i < hits.len() implies #[trigger] r.results[i].score == hits[i].1
            && carries_id(r.results[i].id, hits[i].0) by {
            assert(crate::uuid_text::names_id(r.results@[i].id, hits@[i].0));
        }
    }
}

/// `get_code` fetches exactly the entry that `uuid::Uuid::parse_str` reads
/// from the request's text, whatever form the parser accepts (upper- or
/// lower-case digits, with or without hyphens, braced, URN), and refuses
/// the request, as `InvalidArgument`, exactly where the parser refuses the
/// text or the identifier is absent.
pub proof fn lemma_get_code_reads_what_the_parser_reads<R, M>(
    svc: &DragonNodeServiceImpl<R, M>,
    request: GetCodeRequest,
    call: Result<u128, Status>,
    id: u128,
)
    requires
        call_ensures(DragonNodeServiceImpl::<R, M>::get_code, (svc, request), call),
    ensures
        request.id is Some ==> (call == Ok::<u128, Status>(id) <==> uuid_parse_str(
            request.id->Some_0.value@,
        ) == Some(id)),
        request.id is Some ==> (call is Err <==> uuid_parse_str(request.id->Some_0.value@) is None),
        request.id is Some && call is Err ==> refused(call, "Invalid UUID format"@),
        request.id is None ==> refused(call, "Missing code_id"@),
{
}

/// A found entry is answered with its path, content and language as
/// stored; a failure reports the store's error after "Failed to get code: ".
pub proof fn lemma_get_code_reply<R, M>(
    svc: &DragonNodeServiceImpl<R, M>,
    found: Result<(String, String, String), String>,
    response: Result<GetCodeResponse, Status>,
)
    requires
        call_ensures(DragonNodeServiceImpl::<R, M>::get_code_reply, (svc, found), response),
    ensures
        found is Ok ==> response is Ok && response->Ok_0.path@ == found->Ok_0.0@
            && response->Ok_0.content@ == found->Ok_0.1@ && response->Ok_0.language@ == found->Ok_0.2@,
        found is Err ==> internal_failure(response, "Failed to get code: "@, found->Err_0@),
{
}

/// `get_event` fetches exactly the event that `uuid::Uuid::parse_str` reads
/// from the request's text, and refuses the request, as `InvalidArgument`,
/// exactly where the parser refuses the text or the identifier is absent.
pub proof fn lemma_get_event_reads_what_the_parser_reads<R, M>(
    svc: &DragonNodeServiceImpl<R, M>,
    request: GetEventRequest,
    call: Result<u128, Status>,
    id: u128,
)
    requires
        call_ensures(DragonNodeServiceImpl::<R, M>::get_event, (svc, request), call),
    ensures
        request.id is Some ==> (call == Ok::<u128, Status>(id) <==> uuid_parse_str(
            request.id->Some_0.value@,
        ) == Some(id)),
        request.id is Some ==> (call is Err <==> uuid_parse_str(request.id->Some_0.value@) is None),
        request.id is Some && call is Err ==> refused(call, "Invalid UUID format"@),
        request.id is None ==> refused(call, "Missing event_id"@),
{
}

/// A found event is answered with its type, content and time: the same
/// seconds, and the nanoseconds' low 32 bits read as a signed number; a
/// failure reports the store's error after "Failed to get event: ".
pub proof fn lemma_get_event_reply<R, M>(
    svc: &DragonNodeServiceImpl<R, M>,
    found: Result<EventRecord, String>,
    response: Result<GetEventResponse, Status>,
)
    requires
        call_ensures(DragonNodeServiceImpl::<R, M>::get_event_reply, (svc, found), response),
    ensures
        found is Ok ==> {
            let ev = found->Ok_0;
            let r = response->Ok_0;
            &&& response is Ok
            &&& r.event_type@ == ev.event_type@ && r.content@ == ev.content@
            &&& r.timestamp is Some
            &&& r.timestamp->Some_0.seconds == ev.seconds
            &&& r.timestamp->Some_0.nanos as int == low_32_signed(ev.subsec_nanos as int)
        },
        found is Err ==> internal_failure(response, "Failed to get event: "@, found->Err_0@),
{
    if found is Ok {
        let n = found->Ok_0.subsec_nanos;
        let m = n as i32;
        assert(m as int == low_32_signed(n as int)) by {
            assert(n < 0x8000_0000u32 ==> m as int == n as int) by (bit_vector)
                requires
                    m == n as i32,
            ;
            assert(n >= 0x8000_0000u32 ==> m as int == n as int - 0x1_0000_0000) by (bit_vector)
                requires
                    m == n as i32,
            ;
        }
    }
}

/// `get_related` reads exactly the entry that the parser reads from the
/// request's text, keeps the relation filter as sent, and is refused where
/// the identifier is absent or unreadable.
pub proof fn lemma_get_related_request<R, M>(
    svc: &DragonNodeServiceImpl<R, M>,
    request: GetRelatedRequest,
    call: Result<GetRelatedCall, Status>,
)
    requires
        call_ensures(DragonNodeServiceImpl::<R, M>::get_related, (svc, request), call),
    ensures
        request.id is None ==> refused(call, "Missing id"@),
        request.id is Some && uuid_parse_str(request.id->Some_0.value@) is None
            ==> refused(call, "Invalid UUID format"@),
        request.id is Some && uuid_parse_str(request.id->Some_0.value@) is Some ==> {
            &&& call is Ok
            &&& Some(call->Ok_0.id) == uuid_parse_str(request.id->Some_0.value@)
            &&& call->Ok_0.relation == request.relation
        },
{
}

/// A relation query answers with every relation the store found, as many
/// as it found and in its order: each relation's name unchanged and its two
/// identifiers the texts of the store's identifiers; a failure reports the
/// store's error after "Failed to get related: ".
pub proof fn lemma_get_related_keeps_every_relation<R, M>(
    svc: &DragonNodeServiceImpl<R, M>,
    found: Result<Vec<(u128, String, u128)>, String>,
    response: Result<GetRelatedResponse, Status>,
)
    requires
        call_ensures(DragonNodeServiceImpl::<R, M>::get_related_reply, (svc, found), response),
    ensures
        found is Err ==> internal_failure(response, "Failed to get related: "@, found->Err_0@),
        found is Ok ==> response is Ok && response->Ok_0.relations.len() == found->Ok_0.len(),
        found is Ok ==> forall|i: int|
            0 <= i < found->Ok_0.len() ==> #[trigger] response->Ok_0.relations[i].relation@
                == found->Ok_0[i].1@
                && carries_id(response->Ok_0.relations[i].source_id, found->Ok_0[i].0)
                && carries_id(response->Ok_0.relations[i].target_id, found->Ok_0[i].2),
{
    if found is Ok {
        let rels = found->Ok_0;
        let r = response->Ok_0;
        assert forall|i: int| 0 <= i < rels.len() implies #[trigger] r.relations[i].relation@ == rels[i].1@
            && carries_id(r.relations[i].source_id, rels[i].0)
            && carries_id(r.relations[i].target_id, rels[i].2) by {
            assert(crate::uuid_text::names_id(r.relations@[i].source_id, rels@[i].0));
        }
    }
}

/// The metrics answer keeps every size and gives each count modulo 2^32.
pub proof fn lemma_metrics_reply<R, M>(
    svc: &DragonNodeServiceImpl<R, M>,
    metrics: RamLakeMetrics,
    response: RamLakeMetricsResponse,
)
    requires
        call_ensures(DragonNodeServiceImpl::<R, M>::get_ram_lake_metrics, (svc, metrics), response),
    ensures
        response.total_size == metrics.total_size,
        response.used_size == metrics.used_size,
        response.vector_store_size == metrics.vector_store_size,
        response.code_store_size == metrics.code_store_size,
        response.history_store_size == metrics.history_store_size,
        response.metadata_store_size == metrics.metadata_store_size,
        response.indexed_files as int == metrics.indexed_files as int % 0x1_0000_0000,
        response.vector_entries as int == metrics.vector_entries as int % 0x1_0000_0000,
        response.history_events as int == metrics.history_events as int % 0x1_0000_0000,
{
    lemma_usize_low_32(metrics.indexed_files);
    lemma_usize_low_32(metrics.vector_entries);
    lemma_usize_low_32(metrics.history_events);
}

proof fn lemma_usize_low_32(x: usize)
    ensures
        (x as u32) as int == x as int % 0x1_0000_0000,
{
    let y = x as u64;
    let z = x as u32;
    assert(z as u64 == y % 0x1_0000_0000u64) by (bit_vector)
        requires
            y == x as u64,
            z == x as u32,
    ;
}

} // verus!

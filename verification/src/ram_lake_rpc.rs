//! The remote procedures that reach the RAM-Lake store.
//!
//! Each procedure is a request step, which checks the request and gives the
//! store call to make (or the error to answer at once), and a reply step,
//! which turns the store's answer into the response or the error status.
//! The store's errors arrive as their display text.

use vstd::prelude::*;

use crate::messages::{
    GetCodeRequest, GetCodeResponse, GetEventRequest, GetEventResponse, GetRelatedRequest,
    GetRelatedResponse, IndexCodeRequest, IndexCodeResponse, RamLakeMetrics, RamLakeMetricsResponse,
    Relation, SearchSimilarRequest, SearchSimilarResponse, SearchSimilarResult, StoreCodeRequest,
    StoreCodeResponse, StoreEventRequest, StoreEventResponse, StoreMetadataRequest,
    StoreMetadataResponse, Timestamp,
};
use crate::service::DragonNodeServiceImpl;
use crate::status::{Code, Status, backend_failure, failure_message};
use crate::uuid_text::{
    id_field_read, id_message, is_error, names_id, parse_id, require_id, uuid_parse_str,
};

verus! {

/// The store call of `store_code`.
#[derive(Debug, Clone, PartialEq, Eq)]
pub struct StoreCodeCall {
    pub path: String,
    pub content: String,
    pub language: String,
}

/// The store call of `index_code`.
#[derive(Debug, Clone, PartialEq, Eq)]
pub struct IndexCodeCall {
    pub code_id: u128,
    pub embeddings: Vec<u32>,
}

/// The store call of `store_event`.
#[derive(Debug, Clone, PartialEq, Eq)]
pub struct StoreEventCall {
    pub event_type: String,
    pub content: String,
}

/// The store call of `store_metadata`.
#[derive(Debug, Clone, PartialEq, Eq)]
pub struct StoreMetadataCall {
    pub source: u128,
    pub relation: String,
    pub target: u128,
}

/// The store call of `search_similar`.
#[derive(Debug, Clone, PartialEq, Eq)]
pub struct SearchSimilarCall {
    pub embedding: Vec<u32>,
    pub limit: usize,
}

/// The store call of `get_related`.
#[derive(Debug, Clone, PartialEq, Eq)]
pub struct GetRelatedCall {
    pub id: u128,
    pub relation: Option<String>,
}

/// A stored event as the store gives it back: its type, its content, and
/// its time as whole seconds since the Unix epoch and the nanoseconds within
/// that second.
#[derive(Debug, Clone, PartialEq, Eq)]
pub struct EventRecord {
    pub event_type: String,
    pub content: String,
    pub seconds: i64,
    pub subsec_nanos: u32,
}

/// `results` carries exactly the hits, in order: each identifier in its
/// hyphenated text, each score unchanged.
pub open spec fn search_results_match(results: Seq<SearchSimilarResult>, hits: Seq<(u128, u32)>) -> bool {
    &&& results.len() == hits.len()
    &&& forall|i: int|
        0 <= i < hits.len() ==> names_id(#[trigger] results[i].id, hits[i].0)
            && results[i].score == hits[i].1
}

/// `relations` carries exactly the store's relations, in order.
pub open spec fn relations_match(relations: Seq<Relation>, found: Seq<(u128, String, u128)>) -> bool {
    &&& relations.len() == found.len()
    &&& forall|i: int|
        0 <= i < found.len() ==> {
            &&& names_id(#[trigger] relations[i].source_id, found[i].0)
            &&& relations[i].relation == found[i].1
            &&& names_id(relations[i].target_id, found[i].2)
        }
}

impl<R, M> DragonNodeServiceImpl<R, M> {
    /// Request step of `store_code`: the code is stored as given.
    pub fn store_code(&self, request: StoreCodeRequest) -> (call: StoreCodeCall)
        ensures
            call.path == request.path,
            call.content == request.content,
            call.language == request.language,
    {
        StoreCodeCall { path: request.path, content: request.content, language: request.language }
    }

    /// Reply step of `store_code`: the new entry's identifier, or the
    /// `Internal` error "Failed to store code: " and the store's error.
    pub fn store_code_reply(&self, stored: Result<u128, String>) -> (response: Result<StoreCodeResponse, Status>)
        ensures
            match stored {
                Ok(id) => response matches Ok(r) && names_id(r.id, id),
                Err(e) => is_error(response, Code::Internal, failure_message("Failed to store code: "@, e@)),
            },
    {
        match stored {
            Ok(id) => Ok(StoreCodeResponse { id: Some(id_message(id)) }),
            Err(e) => Err(backend_failure("Failed to store code: ", &e)),
        }
    }

    /// Request step of `index_code`: the code entry named by `code_id` gets
    /// the embeddings.  An absent `code_id` is refused with "Missing
    /// code_id", one that is not an identifier with "Invalid UUID format",
    /// both `InvalidArgument`.
    pub fn index_code(&self, request: IndexCodeRequest) -> (call: Result<IndexCodeCall, Status>)
        ensures
            match request.code_id {
                None => is_error(call, Code::InvalidArgument, "Missing code_id"@),
                Some(m) => match uuid_parse_str(m.value@) {
                    None => is_error(call, Code::InvalidArgument, "Invalid UUID format"@),
                    Some(id) => call matches Ok(c) && c.code_id == id && c.embeddings@ == request.embeddings@,
                },
            },
            forall|id: u128| #![trigger names_id(request.code_id, id)] names_id(request.code_id, id) ==> (call matches Ok(c) && c.code_id == id),
    {
        let id = require_id(&request.code_id, "Missing code_id");
        match id {
            Ok(code_id) => Ok(IndexCodeCall { code_id, embeddings: request.embeddings }),
            Err(s) => Err(s),
        }
    }

    /// Reply step of `index_code`: success, or the `Internal` error "Failed
    /// to index code: " and the store's error.
    pub fn index_code_reply(&self, indexed: Result<(), String>) -> (response: Result<IndexCodeResponse, Status>)
        ensures
            match indexed {
                Ok(_) => response == Ok::<IndexCodeResponse, Status>(IndexCodeResponse { success: true }),
                Err(e) => is_error(response, Code::Internal, failure_message("Failed to index code: "@, e@)),
            },
    {
        match indexed {
            Ok(_) => Ok(IndexCodeResponse { success: true }),
            Err(e) => Err(backend_failure("Failed to index code: ", &e)),
        }
    }

    /// Request step of `store_event`: the event is stored as given.
    pub fn store_event(&self, request: StoreEventRequest) -> (call: StoreEventCall)
        ensures
            call.event_type == request.event_type,
            call.content == request.content,
    {
        StoreEventCall { event_type: request.event_type, content: request.content }
    }

    /// Reply step of `store_event`: the new event's identifier, or the
    /// `Internal` error "Failed to store event: " and the store's error.
    pub fn store_event_reply(&self, stored: Result<u128, String>) -> (response: Result<StoreEventResponse, Status>)
        ensures
            match stored {
                Ok(id) => response matches Ok(r) && names_id(r.id, id),
                Err(e) => is_error(response, Code::Internal, failure_message("Failed to store event: "@, e@)),
            },
    {
        match stored {
            Ok(id) => Ok(StoreEventResponse { id: Some(id_message(id)) }),
            Err(e) => Err(backend_failure("Failed to store event: ", &e)),
        }
    }

    /// Request step of `store_metadata`: a relation from the source entry to
    /// the target entry.  Both identifiers are checked for presence first
    /// ("Missing source_id", then "Missing target_id"), then for their
    /// format ("Invalid source UUID format", then "Invalid target UUID
    /// format"), each refusal `InvalidArgument`.
    pub fn store_metadata(&self, request: StoreMetadataRequest) -> (call: Result<StoreMetadataCall, Status>)
        ensures
            match (request.source_id, request.target_id) {
                (None, _) => is_error(call, Code::InvalidArgument, "Missing source_id"@),
                (Some(_), None) => is_error(call, Code::InvalidArgument, "Missing target_id"@),
                (Some(s), Some(t)) => match (uuid_parse_str(s.value@), uuid_parse_str(t.value@)) {
                    (None, _) => is_error(call, Code::InvalidArgument, "Invalid source UUID format"@),
                    (Some(_), None) => is_error(call, Code::InvalidArgument, "Invalid target UUID format"@),
                    (Some(a), Some(b)) => call matches Ok(c) && c.source == a && c.target == b
                        && c.relation == request.relation,
                },
            },
            forall|a: u128, b: u128|
                #![trigger names_id(request.source_id, a), names_id(request.target_id, b)]
                names_id(request.source_id, a) && names_id(request.target_id, b)
                    ==> (call matches Ok(c) && c.source == a && c.target == b),
    {
        let source_id = match request.source_id {
            Some(m) => m,
            None => return Err(Status::invalid_argument("Missing source_id")),
        };
        let target_id = match request.target_id {
            Some(m) => m,
            None => return Err(Status::invalid_argument("Missing target_id")),
        };
        let source = match parse_id(&source_id, "Invalid source UUID format") {
            Ok(id) => id,
            Err(s) => return Err(s),
        };
        let target = match parse_id(&target_id, "Invalid target UUID format") {
            Ok(id) => id,
            Err(s) => return Err(s),
        };
        Ok(StoreMetadataCall { source, relation: request.relation, target })
    }

    /// Reply step of `store_metadata`: success, or the `Internal` error
    /// "Failed to store metadata: " and the store's error.
    pub fn store_metadata_reply(&self, stored: Result<(), String>) -> (response: Result<StoreMetadataResponse, Status>)
        ensures
            match stored {
                Ok(_) => response == Ok::<StoreMetadataResponse, Status>(StoreMetadataResponse { success: true }),
                Err(e) => is_error(response, Code::Internal, failure_message("Failed to store metadata: "@, e@)),
            },
    {
        match stored {
            Ok(_) => Ok(StoreMetadataResponse { success: true }),
            Err(e) => Err(backend_failure("Failed to store metadata: ", &e)),
        }
    }

    /// Request step of `search_similar`: the embedding as given and the limit
    /// widened to `usize`.
    pub fn search_similar(&self, request: SearchSimilarRequest) -> (call: SearchSimilarCall)
        ensures
            call.embedding@ == request.embedding@,
            call.limit == request.limit as usize,
    {
        SearchSimilarCall { embedding: request.embedding, limit: request.limit as usize }
    }

    /// Reply step of `search_similar`: the hits in the store's order, each
    /// identifier in its hyphenated text and each score unchanged, or the
    /// `Internal` error "Failed to search similar: " and the store's error.
    pub fn search_similar_reply(&self, found: Result<Vec<(u128, u32)>, String>) -> (response: Result<SearchSimilarResponse, Status>)
        ensures
            match found {
                Ok(hits) => response matches Ok(r) && search_results_match(r.results@, hits@),
                Err(e) => is_error(response, Code::Internal, failure_message("Failed to search similar: "@, e@)),
            },
    {
        match found {
            Err(e) => Err(backend_failure("Failed to search similar: ", &e)),
            Ok(hits) => {
                let mut results: Vec<SearchSimilarResult> = Vec::new();
                let n = hits.len();
                for i in 0..n
                    invariant
                        n == hits.len(),
                        results.len() == i,
                        forall|j: int|
                            0 <= j < i ==> names_id(#[trigger] results@[j].id, hits@[j].0)
                                && results@[j].score == hits@[j].1,
                {
                    let (id, score) = hits[i];
                    results.push(SearchSimilarResult { id: Some(id_message(id)), score });
                }
                Ok(SearchSimilarResponse { results })
            },
        }
    }

    /// Request step of `get_code`: the code entry to read.  An absent `id` is
    /// refused with "Missing code_id", one that is not an identifier with
    /// "Invalid UUID format", both `InvalidArgument`.
    pub fn get_code(&self, request: GetCodeRequest) -> (call: Result<u128, Status>)
        ensures
            id_field_read(request.id, "Missing code_id"@, call),
    {
        require_id(&request.id, "Missing code_id")
    }

    /// Reply step of `get_code`: the stored path, content and language, or
    /// the `Internal` error "Failed to get code: " and the store's error.
    pub fn get_code_reply(&self, found: Result<(String, String, String), String>) -> (response: Result<GetCodeResponse, Status>)
        ensures
            match found {
                Ok((path, content, language)) => response matches Ok(r) && r.path == path
                    && r.content == content && r.language == language,
                Err(e) => is_error(response, Code::Internal, failure_message("Failed to get code: "@, e@)),
            },
    {
        match found {
            Ok((path, content, language)) => Ok(GetCodeResponse { path, content, language }),
            Err(e) => Err(backend_failure("Failed to get code: ", &e)),
        }
    }

    /// Request step of `get_event`: the event to read.  An absent `id` is
    /// refused with "Missing event_id", one that is not an identifier with
    /// "Invalid UUID format", both `InvalidArgument`.
    pub fn get_event(&self, request: GetEventRequest) -> (call: Result<u128, Status>)
        ensures
            id_field_read(request.id, "Missing event_id"@, call),
    {
        require_id(&request.id, "Missing event_id")
    }

    /// Reply step of `get_event`: the event's type and content and its time
    /// (the nanoseconds reinterpreted as `i32`), or the `Internal` error
    /// "Failed to get event: " and the store's error.
    pub fn get_event_reply(&self, found: Result<EventRecord, String>) -> (response: Result<GetEventResponse, Status>)
        ensures
            match found {
                Ok(ev) => response matches Ok(r) && r.event_type == ev.event_type && r.content == ev.content
                    && r.timestamp == Some(Timestamp { seconds: ev.seconds, nanos: ev.subsec_nanos as i32 }),
                Err(e) => is_error(response, Code::Internal, failure_message("Failed to get event: "@, e@)),
            },
    {
        match found {
            Ok(ev) => {
                let timestamp = Timestamp { seconds: ev.seconds, nanos: ev.subsec_nanos as i32 };
                Ok(GetEventResponse { event_type: ev.event_type, content: ev.content, timestamp: Some(timestamp) })
            },
            Err(e) => Err(backend_failure("Failed to get event: ", &e)),
        }
    }

    /// Request step of `get_related`: the entry whose relations to read, and
    /// the relation to keep, if any.  An absent `id` is refused with "Missing
    /// id", one that is not an identifier with "Invalid UUID format", both
    /// `InvalidArgument`.
    pub fn get_related(&self, request: GetRelatedRequest) -> (call: Result<GetRelatedCall, Status>)
        ensures
            match request.id {
                None => is_error(call, Code::InvalidArgument, "Missing id"@),
                Some(m) => match uuid_parse_str(m.value@) {
                    None => is_error(call, Code::InvalidArgument, "Invalid UUID format"@),
                    Some(id) => call matches Ok(c) && c.id == id && c.relation == request.relation,
                },
            },
            forall|id: u128| #![trigger names_id(request.id, id)] names_id(request.id, id) ==> (call matches Ok(c) && c.id == id),
    {
        match require_id(&request.id, "Missing id") {
            Ok(id) => Ok(GetRelatedCall { id, relation: request.relation }),
            Err(s) => Err(s),
        }
    }

    /// Reply step of `get_related`: the relations in the store's order, each
    /// identifier in its hyphenated text, or the `Internal` error "Failed to
    /// get related: " and the store's error.
    pub fn get_related_reply(&self, found: Result<Vec<(u128, String, u128)>, String>) -> (response: Result<GetRelatedResponse, Status>)
        ensures
            match found {
                Ok(rels) => response matches Ok(r) && relations_match(r.relations@, rels@),
                Err(e) => is_error(response, Code::Internal, failure_message("Failed to get related: "@, e@)),
            },
    {
        match found {
            Err(e) => Err(backend_failure("Failed to get related: ", &e)),
            Ok(rels) => {
                let mut relations: Vec<Relation> = Vec::new();
                let n = rels.len();
                for i in 0..n
                    invariant
                        n == rels.len(),
                        relations.len() == i,
                        forall|j: int|
                            0 <= j < i ==> {
                                &&& names_id(#[trigger] relations@[j].source_id, rels@[j].0)
                                &&& relations@[j].relation == rels@[j].1
                                &&& names_id(relations@[j].target_id, rels@[j].2)
                            },
                {
                    let source_id = id_message(rels[i].0);
                    let relation = rels[i].1.clone();
                    let target_id = id_message(rels[i].2);
                    relations.push(Relation { source_id: Some(source_id), relation, target_id: Some(target_id) });
                }
                Ok(GetRelatedResponse { relations })
            },
        }
    }

    /// `get_ram_lake_metrics`, whose store call needs no request step: the
    /// store's figures as a response, the sizes unchanged and the counts
    /// narrowed to `u32` (wrapping, as `as` does).
    pub fn get_ram_lake_metrics(&self, metrics: RamLakeMetrics) -> (response: RamLakeMetricsResponse)
        ensures
            response == (RamLakeMetricsResponse {
                total_size: metrics.total_size,
                used_size: metrics.used_size,
                vector_store_size: metrics.vector_store_size,
                code_store_size: metrics.code_store_size,
                history_store_size: metrics.history_store_size,
                metadata_store_size: metrics.metadata_store_size,
                indexed_files: metrics.indexed_files as u32,
                vector_entries: metrics.vector_entries as u32,
                history_events: metrics.history_events as u32,
            }),
    {
        RamLakeMetricsResponse {
            total_size: metrics.total_size,
            used_size: metrics.used_size,
            vector_store_size: metrics.vector_store_size,
            code_store_size: metrics.code_store_size,
            history_store_size: metrics.history_store_size,
            metadata_store_size: metrics.metadata_store_size,
            indexed_files: metrics.indexed_files as u32,
            vector_entries: metrics.vector_entries as u32,
            history_events: metrics.history_events as u32,
        }
    }
}

} // verus!

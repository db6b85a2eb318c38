use dragon_node::messages::{
    GetCodeRequest, GetEventRequest, GetRelatedRequest, IndexCodeRequest, RamLakeMetrics,
    SearchSimilarRequest, StoreCodeRequest, StoreEventRequest, StoreMetadataRequest, Timestamp,
    Uuid,
};
use dragon_node::ram_lake_rpc::EventRecord;
use dragon_node::service::DragonNodeServiceImpl;
use dragon_node::status::{Code, Status};

const ID_TEXT: &str = "a1a2a3a4-b1b2-c1c2-d1d2-d3d4d5d6d7d8";
const ID: u128 = 0xa1a2a3a4b1b2c1c2d1d2d3d4d5d6d7d8;

fn service() -> DragonNodeServiceImpl<(), ()> {
    DragonNodeServiceImpl::new((), ())
}

fn uuid(text: &str) -> Option<Uuid> {
    Some(Uuid { value: text.to_string() })
}

fn invalid(message: &str) -> Status {
    Status { code: Code::InvalidArgument, message: message.to_string() }
}

fn internal(message: &str) -> Status {
    Status { code: Code::Internal, message: message.to_string() }
}

#[test]
fn new_keeps_backend_handles() {
    let svc = DragonNodeServiceImpl::new(7u8, "models");
    assert_eq!(*svc.ram_lake(), 7u8);
    assert_eq!(*svc.model_manager(), "models");
}

#[test]
fn store_code_passes_fields_through() {
    let call = service().store_code(StoreCodeRequest {
        path: "src/main.rs".to_string(),
        content: "fn main() {}".to_string(),
        language: "rust".to_string(),
    });
    assert_eq!(call.path, "src/main.rs");
    assert_eq!(call.content, "fn main() {}");
    assert_eq!(call.language, "rust");
}

#[test]
fn store_code_reply_gives_hyphenated_id() {
    let r = service().store_code_reply(Ok(ID)).unwrap();
    assert_eq!(r.id, uuid(ID_TEXT));
}

#[test]
fn store_code_reply_formats_small_and_large_ids() {
    let r = service().store_code_reply(Ok(0)).unwrap();
    assert_eq!(r.id, uuid("00000000-0000-0000-0000-000000000000"));
    let r = service().store_code_reply(Ok(u128::MAX)).unwrap();
    assert_eq!(r.id, uuid("ffffffff-ffff-ffff-ffff-ffffffffffff"));
}

#[test]
fn store_code_reply_reports_failure() {
    let r = service().store_code_reply(Err("disk full".to_string()));
    assert_eq!(r, Err(internal("Failed to store code: disk full")));
}

#[test]
fn index_code_reads_id() {
    let call = service()
        .index_code(IndexCodeRequest { code_id: uuid(ID_TEXT), embeddings: vec![1, 2, 3] })
        .unwrap();
    assert_eq!(call.code_id, ID);
    assert_eq!(call.embeddings, vec![1, 2, 3]);
}

#[test]
fn index_code_accepts_other_uuid_forms() {
    let svc = service();
    for text in [
        "A1A2A3A4-B1B2-C1C2-D1D2-D3D4D5D6D7D8",
        "a1a2a3a4b1b2c1c2d1d2d3d4d5d6d7d8",
        "{a1a2a3a4-b1b2-c1c2-d1d2-d3d4d5d6d7d8}",
        "urn:uuid:a1a2a3a4-b1b2-c1c2-d1d2-d3d4d5d6d7d8",
    ] {
        let call = svc.index_code(IndexCodeRequest { code_id: uuid(text), embeddings: vec![] }).unwrap();
        assert_eq!(call.code_id, ID);
    }
}

#[test]
fn index_code_missing_id() {
    let r = service().index_code(IndexCodeRequest { code_id: None, embeddings: vec![] });
    assert_eq!(r, Err(invalid("Missing code_id")));
}

#[test]
fn index_code_invalid_id() {
    let svc = service();
    for text in ["", "not-a-uuid", "a1a2a3a4-b1b2-c1c2-d1d2-d3d4d5d6d7dg", "a1a2a3a4b1b2-c1c2-d1d2-d3d4d5d6d7d8"] {
        let r = svc.index_code(IndexCodeRequest { code_id: uuid(text), embeddings: vec![] });
        assert_eq!(r, Err(invalid("Invalid UUID format")));
    }
}

#[test]
fn index_code_reply_cases() {
    let svc = service();
    assert_eq!(svc.index_code_reply(Ok(())).unwrap().success, true);
    assert_eq!(svc.index_code_reply(Err("no such code".to_string())), Err(internal("Failed to index code: no such code")));
}

#[test]
fn store_event_and_reply() {
    let svc = service();
    let call = svc.store_event(StoreEventRequest { event_type: "edit".to_string(), content: "x".to_string() });
    assert_eq!(call.event_type, "edit");
    assert_eq!(call.content, "x");
    assert_eq!(svc.store_event_reply(Ok(ID)).unwrap().id, uuid(ID_TEXT));
    assert_eq!(svc.store_event_reply(Err("full".to_string())), Err(internal("Failed to store event: full")));
}

#[test]
fn store_metadata_reads_both_ids() {
    let call = service()
        .store_metadata(StoreMetadataRequest {
            source_id: uuid(ID_TEXT),
            relation: "imports".to_string(),
            target_id: uuid("00000000-0000-0000-0000-000000000001"),
        })
        .unwrap();
    assert_eq!(call.source, ID);
    assert_eq!(call.target, 1);
    assert_eq!(call.relation, "imports");
}

#[test]
fn store_metadata_checks_presence_before_format() {
    let svc = service();
    let req = |s: Option<Uuid>, t: Option<Uuid>| StoreMetadataRequest { source_id: s, relation: "r".to_string(), target_id: t };
    assert_eq!(svc.store_metadata(req(None, None)), Err(invalid("Missing source_id")));
    assert_eq!(svc.store_metadata(req(None, uuid("bad"))), Err(invalid("Missing source_id")));
    assert_eq!(svc.store_metadata(req(uuid("bad"), None)), Err(invalid("Missing target_id")));
    assert_eq!(svc.store_metadata(req(uuid("bad"), uuid("bad"))), Err(invalid("Invalid source UUID format")));
    assert_eq!(svc.store_metadata(req(uuid(ID_TEXT), uuid("bad"))), Err(invalid("Invalid target UUID format")));
}

#[test]
fn store_metadata_reply_cases() {
    let svc = service();
    assert!(svc.store_metadata_reply(Ok(())).unwrap().success);
    assert_eq!(svc.store_metadata_reply(Err("e".to_string())), Err(internal("Failed to store metadata: e")));
}

#[test]
fn search_similar_widens_limit() {
    let call = service().search_similar(SearchSimilarRequest { embedding: vec![0x3f80_0000], limit: 5 });
    assert_eq!(call.limit, 5usize);
    assert_eq!(call.embedding, vec![0x3f80_0000]);
}

#[test]
fn search_similar_reply_keeps_order_and_scores() {
    let r = service().search_similar_reply(Ok(vec![(ID, 0.5f32.to_bits()), (1, 0.25f32.to_bits())])).unwrap();
    assert_eq!(r.results.len(), 2);
    assert_eq!(r.results[0].id, uuid(ID_TEXT));
    assert_eq!(f32::from_bits(r.results[0].score), 0.5);
    assert_eq!(r.results[1].id, uuid("00000000-0000-0000-0000-000000000001"));
    assert_eq!(f32::from_bits(r.results[1].score), 0.25);
}

#[test]
fn search_similar_reply_empty_and_failure() {
    let svc = service();
    assert!(svc.search_similar_reply(Ok(vec![])).unwrap().results.is_empty());
    assert_eq!(svc.search_similar_reply(Err("index".to_string())), Err(internal("Failed to search similar: index")));
}

#[test]
fn get_code_request_cases() {
    let svc = service();
    assert_eq!(svc.get_code(GetCodeRequest { id: uuid(ID_TEXT) }), Ok(ID));
    assert_eq!(svc.get_code(GetCodeRequest { id: None }), Err(invalid("Missing code_id")));
    assert_eq!(svc.get_code(GetCodeRequest { id: uuid("xyz") }), Err(invalid("Invalid UUID format")));
}

#[test]
fn get_code_reply_cases() {
    let svc = service();
    let r = svc.get_code_reply(Ok(("a.py".to_string(), "print()".to_string(), "python".to_string()))).unwrap();
    assert_eq!((r.path.as_str(), r.content.as_str(), r.language.as_str()), ("a.py", "print()", "python"));
    assert_eq!(svc.get_code_reply(Err("not found".to_string())), Err(internal("Failed to get code: not found")));
}

#[test]
fn get_event_request_cases() {
    let svc = service();
    assert_eq!(svc.get_event(GetEventRequest { id: uuid(ID_TEXT) }), Ok(ID));
    assert_eq!(svc.get_event(GetEventRequest { id: None }), Err(invalid("Missing event_id")));
    assert_eq!(svc.get_event(GetEventRequest { id: uuid("1234") }), Err(invalid("Invalid UUID format")));
}

#[test]
fn get_event_reply_converts_time() {
    let svc = service();
    let r = svc
        .get_event_reply(Ok(EventRecord {
            event_type: "commit".to_string(),
            content: "c".to_string(),
            seconds: 1_700_000_000,
            subsec_nanos: 123_456_789,
        }))
        .unwrap();
    assert_eq!(r.event_type, "commit");
    assert_eq!(r.content, "c");
    assert_eq!(r.timestamp, Some(Timestamp { seconds: 1_700_000_000, nanos: 123_456_789 }));
    assert_eq!(svc.get_event_reply(Err("gone".to_string())), Err(internal("Failed to get event: gone")));
}

#[test]
fn get_event_reply_reinterprets_large_nanos() {
    let r = service()
        .get_event_reply(Ok(EventRecord { event_type: String::new(), content: String::new(), seconds: -1, subsec_nanos: u32::MAX }))
        .unwrap();
    assert_eq!(r.timestamp, Some(Timestamp { seconds: -1, nanos: -1 }));
}

#[test]
fn get_related_request_cases() {
    let svc = service();
    let call = svc.get_related(GetRelatedRequest { id: uuid(ID_TEXT), relation: Some("calls".to_string()) }).unwrap();
    assert_eq!(call.id, ID);
    assert_eq!(call.relation, Some("calls".to_string()));
    let call = svc.get_related(GetRelatedRequest { id: uuid(ID_TEXT), relation: None }).unwrap();
    assert_eq!(call.relation, None);
    assert_eq!(svc.get_related(GetRelatedRequest { id: None, relation: None }), Err(invalid("Missing id")));
    assert_eq!(svc.get_related(GetRelatedRequest { id: uuid("-"), relation: None }), Err(invalid("Invalid UUID format")));
}

#[test]
fn get_related_reply_keeps_order() {
    let svc = service();
    let r = svc.get_related_reply(Ok(vec![(ID, "calls".to_string(), 2), (3, "imports".to_string(), ID)])).unwrap();
    assert_eq!(r.relations.len(), 2);
    assert_eq!(r.relations[0].source_id, uuid(ID_TEXT));
    assert_eq!(r.relations[0].relation, "calls");
    assert_eq!(r.relations[0].target_id, uuid("00000000-0000-0000-0000-000000000002"));
    assert_eq!(r.relations[1].source_id, uuid("00000000-0000-0000-0000-000000000003"));
    assert_eq!(r.relations[1].relation, "imports");
    assert_eq!(r.relations[1].target_id, uuid(ID_TEXT));
    assert_eq!(svc.get_related_reply(Err("x".to_string())), Err(internal("Failed to get related: x")));
}

#[test]
fn metrics_reply_narrows_counts() {
    let r = service().get_ram_lake_metrics(RamLakeMetrics {
        total_size: 100,
        used_size: 40,
        vector_store_size: 10,
        code_store_size: 11,
        history_store_size: 12,
        metadata_store_size: 7,
        indexed_files: 3,
        vector_entries: (u32::MAX as usize) + 2,
        history_events: 5,
    });
    assert_eq!((r.total_size, r.used_size, r.vector_store_size), (100, 40, 10));
    assert_eq!((r.code_store_size, r.history_store_size, r.metadata_store_size), (11, 12, 7));
    assert_eq!(r.indexed_files, 3);
    assert_eq!(r.vector_entries, 1);
    assert_eq!(r.history_events, 5);
}

#[test]
fn stored_code_id_round_trips_through_get_code() {
    let svc = service();
    for id in [0u128, 1, ID, u128::MAX, 0x0123_4567_89ab_cdef_fedc_ba98_7654_3210] {
        let stored = svc.store_code_reply(Ok(id)).unwrap();
        assert_eq!(svc.get_code(GetCodeRequest { id: stored.id.clone() }), Ok(id));
        assert_eq!(svc.index_code(IndexCodeRequest { code_id: stored.id, embeddings: vec![] }).unwrap().code_id, id);
        let ev = svc.store_event_reply(Ok(id)).unwrap();
        assert_eq!(svc.get_event(GetEventRequest { id: ev.id }), Ok(id));
    }
}

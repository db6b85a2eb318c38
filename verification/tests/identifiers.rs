use dragon_node::messages::{GetCodeRequest, Uuid};
use dragon_node::service::DragonNodeServiceImpl;
use dragon_node::status::{backend_failure, Code, Status};
use dragon_node::uuid_text::{id_from_parsed, id_message, parse_id, require_id};

fn text(t: &str) -> Uuid {
    Uuid { value: t.to_string() }
}

#[test]
fn id_message_known_value() {
    assert_eq!(id_message(0x550e8400e29b41d4a716446655440000).value, "550e8400-e29b-41d4-a716-446655440000");
}

#[test]
fn distinct_ids_have_distinct_texts() {
    assert_ne!(id_message(1).value, id_message(2).value);
    assert_ne!(id_message(1 << 127).value, id_message(1).value);
}

#[test]
fn id_text_is_canonical() {
    let t = id_message(0xDEADBEEF_0000_0000_0000_00000000CAFE).value;
    assert_eq!(t.len(), 36);
    for (i, c) in t.chars().enumerate() {
        if [8, 13, 18, 23].contains(&i) {
            assert_eq!(c, '-');
        } else {
            assert!(c.is_ascii_digit() || ('a'..='f').contains(&c));
        }
    }
    assert_eq!(t, "deadbeef-0000-0000-0000-00000000cafe");
}

#[test]
fn id_from_parsed_cases() {
    assert_eq!(id_from_parsed(Some(9), "bad"), Ok(9));
    assert_eq!(id_from_parsed(None, "bad"), Err(Status { code: Code::InvalidArgument, message: "bad".to_string() }));
}

#[test]
fn parse_id_cases() {
    assert_eq!(parse_id(&text("550e8400-e29b-41d4-a716-446655440000"), "bad"), Ok(0x550e8400e29b41d4a716446655440000));
    assert_eq!(
        parse_id(&text("550e8400-e29b-41d4-a716-44665544000"), "bad"),
        Err(Status { code: Code::InvalidArgument, message: "bad".to_string() })
    );
}

#[test]
fn require_id_cases() {
    assert_eq!(
        require_id(&None, "Missing x"),
        Err(Status { code: Code::InvalidArgument, message: "Missing x".to_string() })
    );
    assert_eq!(
        require_id(&Some(text("zz")), "Missing x"),
        Err(Status { code: Code::InvalidArgument, message: "Invalid UUID format".to_string() })
    );
    assert_eq!(require_id(&Some(text("00000000-0000-0000-0000-00000000000a")), "Missing x"), Ok(10));
}

#[test]
fn backend_failure_message() {
    let s = backend_failure("Failed to get code: ", &"entry 7 missing".to_string());
    assert_eq!(s, Status { code: Code::Internal, message: "Failed to get code: entry 7 missing".to_string() });
}

#[test]
fn status_constructors() {
    assert_eq!(Status::invalid_argument("a"), Status { code: Code::InvalidArgument, message: "a".to_string() });
    assert_eq!(Status::internal("b"), Status { code: Code::Internal, message: "b".to_string() });
    assert_eq!(Status::not_found("c".to_string()), Status { code: Code::NotFound, message: "c".to_string() });
}

#[test]
fn get_code_reads_back_every_issued_id() {
    let svc = DragonNodeServiceImpl::new((), ());
    for id in [0u128, 42, 1 << 64, u128::MAX - 1] {
        let issued = Some(id_message(id));
        assert_eq!(svc.get_code(GetCodeRequest { id: issued }), Ok(id));
    }
}

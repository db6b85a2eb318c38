//! Properties of the statuses, the identifiers and the service object,
//! stated over what each operation may return.

use vstd::prelude::*;

use crate::messages::Uuid;
use crate::service::DragonNodeServiceImpl;
use crate::status::{Code, Status, backend_failure};
use crate::uuid_text::{
    hex_digit_lower, hyphenated_digit_index, id_field_read, id_from_parsed, id_message,
    is_hyphen_position, names_id, parse_id, require_id, uuid_hyphenated, uuid_nibble,
    uuid_parse_str,
};

verus! {

/// A lower-case hexadecimal digit.
pub open spec fn is_lower_hex(c: char) -> bool {
    ('0' <= c && c <= '9') || ('a' <= c && c <= 'f')
}

/// An identifier that a reply hands out (the `id` of `store_code` or
/// `store_event`, an id of a search hit or of a relation) is read back, by a
/// request step that takes a required identifier (`get_code`,
/// `get_event`), as the same identifier: the entry that was stored is the
/// entry that is fetched.
pub proof fn lemma_issued_id_reads_back(
    issued: Option<Uuid>,
    id: u128,
    missing: Seq<char>,
    read: Result<u128, Status>,
)
    requires
        names_id(issued, id),
        id_field_read(issued, missing, read),
    ensures
        read == Ok::<u128, Status>(id),
{
}

/// The text of every identifier that the service hands out is in canonical
/// form: 36 characters, hyphens at positions 8, 13, 18 and 23, and
/// lower-case hexadecimal digits everywhere else.
pub proof fn lemma_issued_id_text_is_canonical(id: u128)
    ensures
        uuid_hyphenated(id).len() == 36,
        forall|i: int|
            0 <= i < 36 ==> if is_hyphen_position(i) {
                #[trigger] uuid_hyphenated(id)[i] == '-'
            } else {
                is_lower_hex(uuid_hyphenated(id)[i])
            },
{
    assert forall|i: int| 0 <= i < 36 && !is_hyphen_position(i) implies is_lower_hex(
        #[trigger] uuid_hyphenated(id)[i],
    ) by {
        let k = hyphenated_digit_index(i);
        assert(0 <= k < 32);
        let shift = (124 - 4 * k) as u128;
        let d = (id >> shift) & 0xfu128;
        assert(d < 16) by (bit_vector)
            requires
                d == (id >> shift) & 0xfu128,
        ;
        assert(uuid_nibble(id, k) == d as int);
        lemma_hex_digit_lower_is_hex(d as int);
    }
}

proof fn lemma_hex_digit_lower_is_hex(d: int)
    requires
        0 <= d < 16,
    ensures
        is_lower_hex(hex_digit_lower(d)),
{
}

/// Distinct identifiers are handed out as distinct texts.
pub proof fn lemma_issued_ids_are_distinct(a: u128, b: u128)
    requires
        a != b,
    ensures
        uuid_hyphenated(a) != uuid_hyphenated(b),
{
    if uuid_hyphenated(a) == uuid_hyphenated(b) {
        assert forall|k: int| 0 <= k < 32 implies #[trigger] uuid_nibble(a, k) == uuid_nibble(b, k) by {
            let i = digit_position(k);
            assert(hyphenated_digit_index(i) == k && !is_hyphen_position(i) && 0 <= i < 36);
            assert(uuid_hyphenated(a)[i] == uuid_hyphenated(b)[i]);
            lemma_nibble_range(a, k);
            lemma_nibble_range(b, k);
            lemma_hex_digit_lower_injective(uuid_nibble(a, k), uuid_nibble(b, k));
        }
        lemma_equal_nibbles(a, b);
    }
}

/// Where the `k`-th digit stands in the hyphenated text.
spec fn digit_position(k: int) -> int {
    if k < 8 {
        k
    } else if k < 12 {
        k + 1
    } else if k < 16 {
        k + 2
    } else if k < 20 {
        k + 3
    } else {
        k + 4
    }
}

proof fn lemma_nibble_range(id: u128, k: int)
    requires
        0 <= k < 32,
    ensures
        0 <= uuid_nibble(id, k) < 16,
{
    let shift = (124 - 4 * k) as u128;
    let d = (id >> shift) & 0xfu128;
    assert(d < 16) by (bit_vector)
        requires
            d == (id >> shift) & 0xfu128,
    ;
}

proof fn lemma_hex_digit_lower_injective(x: int, y: int)
    requires
        0 <= x < 16,
        0 <= y < 16,
        hex_digit_lower(x) == hex_digit_lower(y),
    ensures
        x == y,
{
}

proof fn lemma_equal_nibbles(a: u128, b: u128)
    requires
        forall|k: int| 0 <= k < 32 ==> #[trigger] uuid_nibble(a, k) == uuid_nibble(b, k),
    ensures
        a == b,
{
    assert(uuid_nibble(a, 0) == uuid_nibble(b, 0));
    assert(uuid_nibble(a, 1) == uuid_nibble(b, 1));
    assert(uuid_nibble(a, 2) == uuid_nibble(b, 2));
    assert(uuid_nibble(a, 3) == uuid_nibble(b, 3));
    assert(uuid_nibble(a, 4) == uuid_nibble(b, 4));
    assert(uuid_nibble(a, 5) == uuid_nibble(b, 5));
    assert(uuid_nibble(a, 6) == uuid_nibble(b, 6));
    assert(uuid_nibble(a, 7) == uuid_nibble(b, 7));
    assert(uuid_nibble(a, 8) == uuid_nibble(b, 8));
    assert(uuid_nibble(a, 9) == uuid_nibble(b, 9));
    assert(uuid_nibble(a, 10) == uuid_nibble(b, 10));
    assert(uuid_nibble(a, 11) == uuid_nibble(b, 11));
    assert(uuid_nibble(a, 12) == uuid_nibble(b, 12));
    assert(uuid_nibble(a, 13) == uuid_nibble(b, 13));
    assert(uuid_nibble(a, 14) == uuid_nibble(b, 14));
    assert(uuid_nibble(a, 15) == uuid_nibble(b, 15));
    assert(uuid_nibble(a, 16) == uuid_nibble(b, 16));
    assert(uuid_nibble(a, 17) == uuid_nibble(b, 17));
    assert(uuid_nibble(a, 18) == uuid_nibble(b, 18));
    assert(uuid_nibble(a, 19) == uuid_nibble(b, 19));
    assert(uuid_nibble(a, 20) == uuid_nibble(b, 20));
    assert(uuid_nibble(a, 21) == uuid_nibble(b, 21));
    assert(uuid_nibble(a, 22) == uuid_nibble(b, 22));
    assert(uuid_nibble(a, 23) == uuid_nibble(b, 23));
    assert(uuid_nibble(a, 24) == uuid_nibble(b, 24));
    assert(uuid_nibble(a, 25) == uuid_nibble(b, 25));
    assert(uuid_nibble(a, 26) == uuid_nibble(b, 26));
    assert(uuid_nibble(a, 27) == uuid_nibble(b, 27));
    assert(uuid_nibble(a, 28) == uuid_nibble(b, 28));
    assert(uuid_nibble(a, 29) == uuid_nibble(b, 29));
    assert(uuid_nibble(a, 30) == uuid_nibble(b, 30));
    assert(uuid_nibble(a, 31) == uuid_nibble(b, 31));
    lemma_nibbles_determine(a, b);
}

proof fn lemma_nibbles_determine(a: u128, b: u128)
    by (bit_vector)
    requires
        (a >> 124u128) & 0xfu128 == (b >> 124u128) & 0xfu128,
        (a >> 120u128) & 0xfu128 == (b >> 120u128) & 0xfu128,
        (a >> 116u128) & 0xfu128 == (b >> 116u128) & 0xfu128,
        (a >> 112u128) & 0xfu128 == (b >> 112u128) & 0xfu128,
        (a >> 108u128) & 0xfu128 == (b >> 108u128) & 0xfu128,
        (a >> 104u128) & 0xfu128 == (b >> 104u128) & 0xfu128,
        (a >> 100u128) & 0xfu128 == (b >> 100u128) & 0xfu128,
        (a >> 96u128) & 0xfu128 == (b >> 96u128) & 0xfu128,
        (a >> 92u128) & 0xfu128 == (b >> 92u128) & 0xfu128,
        (a >> 88u128) & 0xfu128 == (b >> 88u128) & 0xfu128,
        (a >> 84u128) & 0xfu128 == (b >> 84u128) & 0xfu128,
        (a >> 80u128) & 0xfu128 == (b >> 80u128) & 0xfu128,
        (a >> 76u128) & 0xfu128 == (b >> 76u128) & 0xfu128,
        (a >> 72u128) & 0xfu128 == (b >> 72u128) & 0xfu128,
        (a >> 68u128) & 0xfu128 == (b >> 68u128) & 0xfu128,
        (a >> 64u128) & 0xfu128 == (b >> 64u128) & 0xfu128,
        (a >> 60u128) & 0xfu128 == (b >> 60u128) & 0xfu128,
        (a >> 56u128) & 0xfu128 == (b >> 56u128) & 0xfu128,
        (a >> 52u128) & 0xfu128 == (b >> 52u128) & 0xfu128,
        (a >> 48u128) & 0xfu128 == (b >> 48u128) & 0xfu128,
        (a >> 44u128) & 0xfu128 == (b >> 44u128) & 0xfu128,
        (a >> 40u128) & 0xfu128 == (b >> 40u128) & 0xfu128,
        (a >> 36u128) & 0xfu128 == (b >> 36u128) & 0xfu128,
        (a >> 32u128) & 0xfu128 == (b >> 32u128) & 0xfu128,
        (a >> 28u128) & 0xfu128 == (b >> 28u128) & 0xfu128,
        (a >> 24u128) & 0xfu128 == (b >> 24u128) & 0xfu128,
        (a >> 20u128) & 0xfu128 == (b >> 20u128) & 0xfu128,
        (a >> 16u128) & 0xfu128 == (b >> 16u128) & 0xfu128,
        (a >> 12u128) & 0xfu128 == (b >> 12u128) & 0xfu128,
        (a >> 8u128) & 0xfu128 == (b >> 8u128) & 0xfu128,
        (a >> 4u128) & 0xfu128 == (b >> 4u128) & 0xfu128,
        (a >> 0u128) & 0xfu128 == (b >> 0u128) & 0xfu128,
    ensures
        a == b,
{
}


/// `response` is the `Internal` error whose message is `prefix` followed by
/// `error`.
pub open spec fn internal_failure<T>(response: Result<T, Status>, prefix: Seq<char>, error: Seq<char>) -> bool {
    &&& response is Err
    &&& response->Err_0.code == Code::Internal
    &&& response->Err_0.message@ == prefix + error
}

/// `response` is the `InvalidArgument` error with the given message.
pub open spec fn refused<T>(response: Result<T, Status>, message: Seq<char>) -> bool {
    &&& response is Err
    &&& response->Err_0.code == Code::InvalidArgument
    &&& response->Err_0.message@ == message
}

/// `field` is present and holds the hyphenated text of `id`.
pub open spec fn carries_id(field: Option<Uuid>, id: u128) -> bool {
    field is Some && field->Some_0.value@ == uuid_hyphenated(id)
}

/// The status constructors keep their code and their message.
pub proof fn lemma_status_constructors(
    text: &str,
    owned: String,
    invalid: Status,
    not_found: Status,
    internal: Status,
)
    requires
        call_ensures(Status::invalid_argument, (text,), invalid),
        call_ensures(Status::not_found, (owned,), not_found),
        call_ensures(Status::internal, (text,), internal),
    ensures
        invalid.code == Code::InvalidArgument && invalid.message@ == text@,
        not_found.code == Code::NotFound && not_found.message@ == owned@,
        internal.code == Code::Internal && internal.message@ == text@,
{
}

/// A backend failure is reported as `Internal`, with a message that starts
/// with the operation's prefix and goes on with the backend's whole error
/// text, nothing added or lost.
pub proof fn lemma_backend_failure_keeps_the_error(prefix: &str, error: &String, status: Status)
    requires
        call_ensures(backend_failure, (prefix, error), status),
    ensures
        status.code == Code::Internal,
        status.message@.len() == prefix@.len() + error@.len(),
        status.message@.subrange(0, prefix@.len() as int) == prefix@,
        status.message@.subrange(prefix@.len() as int, status.message@.len() as int) == error@,
{
    assert(status.message@.subrange(0, prefix@.len() as int) =~= prefix@);
    assert(status.message@.subrange(prefix@.len() as int, status.message@.len() as int) =~= error@);
}

/// What parsing gave decides the read alone: a parsed identifier is the
/// answer, a refused text the `InvalidArgument` error with the given message.
pub proof fn lemma_id_from_parsed(parsed: Option<u128>, invalid: &str, result: Result<u128, Status>)
    requires
        call_ensures(id_from_parsed, (parsed, invalid), result),
    ensures
        parsed is Some ==> result == Ok::<u128, Status>(parsed->Some_0),
        parsed is None ==> refused(result, invalid@),
{
}

/// Reading an identifier gives exactly what `uuid::Uuid::parse_str` reads
/// from its text, and refuses exactly the texts that the parser refuses.
pub proof fn lemma_parse_id_reads_what_the_parser_reads(
    id: &Uuid,
    invalid: &str,
    result: Result<u128, Status>,
    n: u128,
)
    requires
        call_ensures(parse_id, (id, invalid), result),
    ensures
        result == Ok::<u128, Status>(n) <==> uuid_parse_str(id.value@) == Some(n),
        result is Err <==> uuid_parse_str(id.value@) is None,
        result is Err ==> refused(result, invalid@),
{
}

/// Reading a required identifier field refuses an absent field with the
/// given message, and otherwise reads exactly what the parser reads.
pub proof fn lemma_require_id_reads_what_the_parser_reads(
    field: &Option<Uuid>,
    missing: &str,
    result: Result<u128, Status>,
    n: u128,
)
    requires
        call_ensures(require_id, (field, missing), result),
    ensures
        *field is None ==> refused(result, missing@),
        *field is Some ==> (result == Ok::<u128, Status>(n) <==> uuid_parse_str(field->Some_0.value@) == Some(n)),
        *field is Some ==> (result is Err <==> uuid_parse_str(field->Some_0.value@) is None),
        *field is Some && result is Err ==> refused(result, "Invalid UUID format"@),
{
}

/// The wire form of an identifier is the text that the `uuid` crate writes
/// for it, in canonical hyphenated form, and distinct identifiers get
/// distinct texts.
pub proof fn lemma_id_message_is_canonical(a: u128, b: u128, ma: Uuid, mb: Uuid)
    requires
        call_ensures(id_message, (a,), ma),
        call_ensures(id_message, (b,), mb),
    ensures
        ma.value@ == uuid_hyphenated(a),
        ma.value@.len() == 36,
        forall|i: int|
            0 <= i < 36 ==> if is_hyphen_position(i) {
                #[trigger] ma.value@[i] == '-'
            } else {
                is_lower_hex(ma.value@[i])
            },
        a != b ==> ma.value@ != mb.value@,
{
    lemma_issued_id_text_is_canonical(a);
    if a != b {
        lemma_issued_ids_are_distinct(a, b);
    }
}

/// The service hands back the backend handles it was made with.
pub proof fn lemma_service_keeps_its_handles<R, M>(
    ram_lake: R,
    model_manager: M,
    svc: DragonNodeServiceImpl<R, M>,
    r: &R,
    m: &M,
)
    requires
        call_ensures(DragonNodeServiceImpl::<R, M>::new, (ram_lake, model_manager), svc),
        call_ensures(DragonNodeServiceImpl::<R, M>::ram_lake, (&svc,), r),
        call_ensures(DragonNodeServiceImpl::<R, M>::model_manager, (&svc,), m),
    ensures
        *r == ram_lake,
        *m == model_manager,
{
}

} // verus!

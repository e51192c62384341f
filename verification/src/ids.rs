use vstd::prelude::*;

use crate::error::{ApiError, ErrorView};
use crate::text::{ascii_lower_char, ascii_lowercase, digit_char, owned};

verus! {

/// The 12 bytes of a MongoDB object id.
pub type ObjectIdBytes = [u8; 12];

pub open spec fn is_hex_digit(c: char) -> bool {
    ('0' <= c <= '9') || ('a' <= c <= 'f') || ('A' <= c <= 'F')
}

/// Value of a hexadecimal digit of either case.
pub open spec fn hex_value(c: char) -> nat {
    if '0' <= c <= '9' {
        ((c as int) - ('0' as int)) as nat
    } else if 'a' <= c <= 'f' {
        ((c as int) - ('a' as int) + 10) as nat
    } else {
        ((c as int) - ('A' as int) + 10) as nat
    }
}

/// The lowercase hexadecimal digit of `v < 16`.
pub open spec fn hex_digit_lower(v: nat) -> char {
    if v < 10 {
        digit_char(v)
    } else {
        ((v - 10) + ('a' as int)) as char
    }
}

/// Lowercase hexadecimal text of a byte sequence, two digits per byte.
pub open spec fn hex_lower(bytes: Seq<u8>) -> Seq<char> {
    Seq::new(
        2 * bytes.len(),
        |i: int|
            if i % 2 == 0 {
                hex_digit_lower((bytes[i / 2] / 16) as nat)
            } else {
                hex_digit_lower((bytes[i / 2] % 16) as nat)
            },
    )
}

/// Whether `s` is the text of an object id: 24 hexadecimal digits of either case.
pub open spec fn object_id_text_ok(s: Seq<char>) -> bool {
    s.len() == 24 && forall|i: int| 0 <= i < 24 ==> is_hex_digit(#[trigger] s[i])
}

/// The bytes that the text of an object id spells.
pub open spec fn object_id_bytes(s: Seq<char>) -> Seq<u8> {
    Seq::new(12, |i: int| (hex_value(s[2 * i]) * 16 + hex_value(s[2 * i + 1])) as u8)
}

/// bson's `ObjectId::parse_str`: the id that 24 hexadecimal digits (either
/// case) spell, two digits per byte; no id for any other text.
#[verifier::external_body]
fn object_id_from_text(s: &str) -> (res: Option<ObjectIdBytes>)
    ensures
        res is Some <==> object_id_text_ok(s@),
        res matches Some(b) ==> b@ == object_id_bytes(s@),
{
    mongodb::bson::oid::ObjectId::parse_str(s).ok().map(|o| o.bytes())
}

/// bson's `ObjectId::to_hex`: the id's bytes as lowercase hexadecimal text.
#[verifier::external_body]
fn object_id_to_hex(bytes: ObjectIdBytes) -> (res: String)
    ensures
        res@ == hex_lower(bytes@),
{
    mongodb::bson::oid::ObjectId::from_bytes(bytes).to_hex()
}

/// The refusal given to a malformed id.
pub open spec fn bad_id_error() -> ErrorView {
    ErrorView::BadRequest("id invalido"@)
}

/// Reads the id of a stored record from its text.
pub fn parse_object_id(id: &str) -> (res: Result<ObjectIdBytes, ApiError>)
    ensures
        res is Ok <==> object_id_text_ok(id@),
        match res {
            Ok(b) => b@ == object_id_bytes(id@),
            Err(e) => e@ == bad_id_error(),
        },
{
    match object_id_from_text(id) {
        Some(b) => Ok(b),
        None => Err(ApiError::BadRequest(owned("id invalido"))),
    }
}

/// The text of an optional id: its lowercase hexadecimal form, or empty.
pub open spec fn id_text(id: Option<ObjectIdBytes>) -> Seq<char> {
    match id {
        Some(b) => hex_lower(b@),
        None => Seq::empty(),
    }
}

/// The text under which a record's id is shown.
pub fn id_to_text(id: Option<ObjectIdBytes>) -> (res: String)
    ensures
        res@ == id_text(id),
{
    match id {
        Some(b) => object_id_to_hex(b),
        None => String::new(),
    }
}

proof fn lemma_hex_digit_roundtrip(v: nat)
    requires
        v < 16,
    ensures
        is_hex_digit(hex_digit_lower(v)),
        hex_value(hex_digit_lower(v)) == v,
        ascii_lower_char(hex_digit_lower(v)) == hex_digit_lower(v),
{
}

/// The text of an id reads back as the same id.
pub proof fn lemma_id_text_reads_back(bytes: Seq<u8>)
    requires
        bytes.len() == 12,
    ensures
        object_id_text_ok(hex_lower(bytes)),
        object_id_bytes(hex_lower(bytes)) == bytes,
{
    let s = hex_lower(bytes);
    assert forall|i: int| 0 <= i < 24 implies is_hex_digit(#[trigger] s[i]) by {
        lemma_hex_digit_roundtrip((bytes[i / 2] / 16) as nat);
        lemma_hex_digit_roundtrip((bytes[i / 2] % 16) as nat);
    }
    assert forall|i: int| 0 <= i < 12 implies #[trigger] object_id_bytes(s)[i] == bytes[i] by {
        let b = bytes[i];
        assert((2 * i) % 2 == 0);
        assert((2 * i + 1) % 2 == 1);
        assert((2 * i) / 2 == i);
        assert((2 * i + 1) / 2 == i);
        lemma_hex_digit_roundtrip((b / 16) as nat);
        lemma_hex_digit_roundtrip((b % 16) as nat);
        assert((b / 16) * 16 + b % 16 == b);
    }
    assert(object_id_bytes(s) =~= bytes);
}

/// An id read from text is shown as that text in lowercase.
pub proof fn lemma_parsed_id_shows_as_lowercase(s: Seq<char>)
    requires
        object_id_text_ok(s),
    ensures
        hex_lower(object_id_bytes(s)) == ascii_lowercase(s),
{
    let b = object_id_bytes(s);
    assert forall|i: int| 0 <= i < 24 implies #[trigger] hex_lower(b)[i] == ascii_lowercase(s)[i] by {
        let k = i / 2;
        let hi = hex_value(s[2 * k]);
        let lo = hex_value(s[2 * k + 1]);
        assert(hi < 16 && lo < 16);
        assert(b[k] == (hi * 16 + lo) as u8);
        assert(b[k] / 16 == hi && b[k] % 16 == lo) by (nonlinear_arith)
            requires
                b[k] as nat == hi * 16 + lo,
                hi < 16,
                lo < 16,
        ;
        if i % 2 == 0 {
            assert(i == 2 * k);
        } else {
            assert(i == 2 * k + 1);
        }
    }
    assert(hex_lower(b) =~= ascii_lowercase(s));
}

} // verus!

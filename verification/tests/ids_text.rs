use gmud_backend::error::ApiError;
use gmud_backend::ids::{id_to_text, parse_object_id};

#[test]
fn parse_object_id_reads_hex() {
    let b = parse_object_id("65A1b2c3d4e5f60718293a4b").unwrap();
    assert_eq!(b, [0x65, 0xa1, 0xb2, 0xc3, 0xd4, 0xe5, 0xf6, 0x07, 0x18, 0x29, 0x3a, 0x4b]);
    assert_eq!(id_to_text(Some(b)), "65a1b2c3d4e5f60718293a4b");
}

#[test]
fn parse_object_id_rejects_bad_text() {
    for bad in ["", "123", "65a1b2c3d4e5f60718293a4", "65a1b2c3d4e5f60718293a4bb", "zza1b2c3d4e5f60718293a4b"] {
        match parse_object_id(bad) {
            Err(ApiError::BadRequest(m)) => assert_eq!(m, "id invalido"),
            other => panic!("unexpected {:?}", other),
        }
    }
}

#[test]
fn id_to_text_of_none_is_empty() {
    assert_eq!(id_to_text(None), "");
}

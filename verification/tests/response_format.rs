use gmud_backend::error::ApiError;
use gmud_backend::response::{ok, paginated, request_id, request_id_at, PaginationMeta};

#[test]
fn request_id_has_prefix_and_digits() {
    let id = request_id();
    assert!(id.starts_with("req-"));
    assert!(id.len() > 4);
    assert!(id[4..].chars().all(|c| c.is_ascii_digit()));
    assert_eq!(request_id_at(0), "req-0");
    assert_eq!(request_id_at(1700000000123456789), "req-1700000000123456789");
    assert_eq!(request_id_at(u128::MAX), format!("req-{}", u128::MAX));
}

#[test]
fn ok_envelope() {
    let r = ok("login realizado", 5u8);
    assert!(r.success);
    assert_eq!(r.message, "login realizado");
    assert_eq!(r.data, 5);
    assert!(r.request_id.starts_with("req-"));
}

#[test]
fn paginated_envelope() {
    let meta = PaginationMeta { page: 1, limit: 10, total_items: 100, total_pages: 10 };
    let r = paginated("lista carregada", vec![1, 2], meta);
    assert!(r.success);
    assert_eq!(r.data, vec![1, 2]);
    assert_eq!(r.pagination.total_pages, 10);
}

#[test]
fn error_bodies() {
    let cases = [
        (ApiError::BadRequest("x".to_string()), 400, "bad_request", "requisicao invalida: x"),
        (ApiError::NotFound("x".to_string()), 404, "not_found", "recurso nao encontrado: x"),
        (ApiError::Validation("x".to_string()), 422, "validation_error", "erro de validacao: x"),
        (ApiError::Unauthorized("x".to_string()), 401, "unauthorized", "nao autorizado: x"),
        (ApiError::Database("x".to_string()), 500, "database_error", "erro de banco de dados"),
        (ApiError::Internal("x".to_string()), 500, "internal_error", "erro interno: x"),
    ];
    for (e, status, kind, message) in cases {
        assert_eq!(e.status_code(), status);
        assert_eq!(e.error_type(), kind);
        let body = e.error_body();
        assert!(!body.success);
        assert_eq!(body.error_type, kind);
        assert_eq!(body.message, message);
        assert!(body.request_id.starts_with("req-"));
    }
}

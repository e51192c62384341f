use gmud_backend::error::ApiError;
use gmud_backend::roles::UserRole;
use gmud_backend::user::{new_user_model, users_response, verify_user_password, CreateUserDto, UserModel, UserResponseDto};

#[test]
fn new_user_hash_verifies_password() {
    let input = CreateUserDto { name: "Maria Silva".to_string(), role: UserRole::Developer, password: "segredo1".to_string() };
    let m = new_user_model(input).unwrap();
    assert!(m.id.is_none());
    assert_eq!(m.name, "Maria Silva");
    assert_eq!(m.role, UserRole::Developer);
    let h = m.password_hash.unwrap();
    assert_eq!(h.chars().count(), 60);
    assert!(h.starts_with("$2b$12$"));
    assert_ne!(h, "segredo1");
    assert!(verify_user_password("segredo1", &h).unwrap());
    assert!(!verify_user_password("segredo2", &h).unwrap());
}

#[test]
fn new_user_validation() {
    let short_name = CreateUserDto { name: "Al".to_string(), role: UserRole::Admin, password: "segredo1".to_string() };
    assert!(matches!(new_user_model(short_name), Err(ApiError::Validation(_))));
    let short_password = CreateUserDto { name: "Alice".to_string(), role: UserRole::Admin, password: "12345".to_string() };
    match new_user_model(short_password) {
        Err(ApiError::Validation(m)) => assert!(m.starts_with("password: ")),
        other => panic!("unexpected {:?}", other),
    }
    let long_password = CreateUserDto { name: "Alice".to_string(), role: UserRole::Admin, password: "x".repeat(129) };
    assert!(new_user_model(long_password).is_err());
}

#[test]
fn bad_hash_is_internal_error() {
    match verify_user_password("x", "not-a-hash") {
        Err(ApiError::Internal(m)) => assert_eq!(m, "falha ao validar senha"),
        other => panic!("unexpected {:?}", other),
    }
}

#[test]
fn users_are_listed_in_order() {
    let users = vec![
        UserModel { id: Some([0xab; 12]), name: "Ana".to_string(), role: UserRole::Admin, password_hash: None },
        UserModel { id: None, name: "Bia".to_string(), role: UserRole::Approver, password_hash: Some("h".to_string()) },
    ];
    let r = users_response(&users);
    assert_eq!(r.len(), 2);
    assert_eq!(r[0].id, "abababababababababababab");
    assert_eq!(r[0].name, "Ana");
    assert_eq!(r[1].id, "");
    assert_eq!(r[1].role, UserRole::Approver);
    let one = UserResponseDto::from_model(&users[1]);
    assert_eq!(one.name, "Bia");
}

#[test]
fn every_failed_rule_is_one_line_of_the_message() {
    let both = CreateUserDto { name: "Al".to_string(), role: UserRole::Admin, password: "123".to_string() };
    match new_user_model(both) {
        Err(ApiError::Validation(m)) => {
            let mut lines: Vec<&str> = m.split('\n').collect();
            lines.sort();
            assert_eq!(lines.len(), 2);
            assert!(lines[0].starts_with("name: "));
            assert!(lines[0].contains("Validation error: length"));
            assert!(lines[1].starts_with("password: "));
        }
        other => panic!("unexpected {:?}", other),
    }
}

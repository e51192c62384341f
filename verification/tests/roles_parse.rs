use gmud_backend::error::ApiError;
use gmud_backend::roles::{parse_normalized_role, parse_user_role, UserRole};

#[test]
fn parse_user_role_accepts_three_roles() {
    assert_eq!(parse_user_role("developer").unwrap(), UserRole::Developer);
    assert_eq!(parse_user_role("approver").unwrap(), UserRole::Approver);
    assert_eq!(parse_user_role("admin").unwrap(), UserRole::Admin);
}

#[test]
fn parse_user_role_ignores_case_and_whitespace() {
    assert_eq!(parse_user_role("  ADMIN \t").unwrap(), UserRole::Admin);
    assert_eq!(parse_user_role("\nDeveloper").unwrap(), UserRole::Developer);
    assert_eq!(parse_user_role("\u{3000}aPPROVER").unwrap(), UserRole::Approver);
}

#[test]
fn parse_user_role_rejects_unknown() {
    match parse_user_role("manager") {
        Err(ApiError::Validation(m)) => assert_eq!(m, "role invalido"),
        other => panic!("unexpected {:?}", other),
    }
    assert!(parse_user_role("").is_err());
    assert!(parse_user_role("ad min").is_err());
}

#[test]
fn role_names_read_back() {
    for r in [UserRole::Developer, UserRole::Approver, UserRole::Admin] {
        assert_eq!(parse_user_role(r.name()).unwrap(), r);
    }
}

#[test]
fn parse_normalized_role_is_exact() {
    assert_eq!(parse_normalized_role("admin").unwrap(), UserRole::Admin);
    assert!(parse_normalized_role("Admin").is_err());
    assert!(parse_normalized_role(" admin").is_err());
}

#[test]
fn parse_user_role_trims_only_the_ends() {
    assert_eq!(parse_user_role("\u{2009}admin\u{2028}\u{85}").unwrap(), UserRole::Admin);
    assert!(parse_user_role(" \u{85}\t ").is_err());
    assert!(parse_user_role("ad min").is_err());
    assert!(parse_user_role("\u{200b}admin").is_err());
}

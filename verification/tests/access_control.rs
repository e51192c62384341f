use gmud_backend::access::{authorize, require_roles, verify_credentials, AuthenticatedUser, Endpoint};
use gmud_backend::config::{AppConfig, EnvVars};
use gmud_backend::error::ApiError;
use gmud_backend::roles::UserRole;

fn user(role: UserRole) -> AuthenticatedUser {
    AuthenticatedUser { username: "maria".to_string(), role }
}

fn config() -> AppConfig {
    let vars = EnvVars {
        host: None,
        port: None,
        mongodb_uri: Some("mongodb://localhost:27017".to_string()),
        database_name: Some("gmud".to_string()),
        jwt_secret: Some("segredo".to_string()),
        jwt_access_exp_minutes: None,
        jwt_refresh_exp_hours: None,
        auth_username: Some("admin".to_string()),
        auth_password: Some("admin123".to_string()),
        auth_role: None,
        cookie_secure: None,
        cors_allowed_origins: None,
    };
    AppConfig::from_vars(vars).expect("config")
}

#[test]
fn require_roles_admits_listed_role() {
    assert!(require_roles(&user(UserRole::Developer), &[UserRole::Admin, UserRole::Developer]).is_ok());
}

#[test]
fn require_roles_refuses_unlisted_role() {
    match require_roles(&user(UserRole::Approver), &[UserRole::Admin, UserRole::Developer]) {
        Err(ApiError::Unauthorized(m)) => {
            assert_eq!(m, "voce nao tem permissao para acessar este recurso")
        },
        other => panic!("unexpected {:?}", other),
    }
}

#[test]
fn require_roles_refuses_empty_list() {
    assert!(require_roles(&user(UserRole::Admin), &[]).is_err());
}

#[test]
fn access_matrix_matches_readme() {
    let table = [
        (Endpoint::ListGmuds, [true, true, true]),
        (Endpoint::GetGmud, [true, true, true]),
        (Endpoint::CreateGmud, [true, true, false]),
        (Endpoint::UpdateGmud, [true, true, false]),
        (Endpoint::DeleteGmud, [true, false, false]),
        (Endpoint::CreateUser, [true, false, false]),
        (Endpoint::ListUsers, [true, false, true]),
    ];
    for (endpoint, expected) in table {
        for (role, allowed) in [UserRole::Admin, UserRole::Developer, UserRole::Approver].into_iter().zip(expected) {
            assert_eq!(authorize(&user(role), endpoint).is_ok(), allowed, "{:?} {:?}", endpoint, role);
        }
    }
}

#[test]
fn admin_may_use_every_endpoint() {
    for e in [
        Endpoint::CreateGmud,
        Endpoint::ListGmuds,
        Endpoint::GetGmud,
        Endpoint::UpdateGmud,
        Endpoint::DeleteGmud,
        Endpoint::CreateUser,
        Endpoint::ListUsers,
    ] {
        assert!(authorize(&user(UserRole::Admin), e).is_ok());
    }
}

#[test]
fn success_status_and_messages() {
    assert_eq!(Endpoint::CreateGmud.success_status(), 201);
    assert_eq!(Endpoint::CreateUser.success_status(), 201);
    assert_eq!(Endpoint::ListGmuds.success_status(), 200);
    assert_eq!(Endpoint::DeleteGmud.success_message(), "gmud removida com sucesso");
    assert_eq!(Endpoint::CreateGmud.success_message(), "gmud criada com sucesso");
    assert_eq!(Endpoint::ListUsers.success_message(), "usuarios listados com sucesso");
}

#[test]
fn verify_credentials_accepts_configured_pair() {
    let c = config();
    assert!(verify_credentials(&c, "admin", "admin123").is_ok());
}

#[test]
fn verify_credentials_refuses_wrong_password() {
    let c = config();
    match verify_credentials(&c, "admin", "admin124") {
        Err(ApiError::Unauthorized(m)) => assert_eq!(m, "credenciais invalidas"),
        other => panic!("unexpected {:?}", other),
    }
    assert!(verify_credentials(&c, "Admin", "admin123").is_err());
}

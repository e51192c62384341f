use gmud_backend::access::AuthenticatedUser;
use gmud_backend::config::{AppConfig, EnvVars};
use gmud_backend::error::ApiError;
use gmud_backend::roles::UserRole;
use gmud_backend::session::{
    access_cookie, cookie_token, login_session, login_session_at, logout_cookies, me, refresh_cookie,
    refresh_session, refresh_session_at, verify_user_login, SameSite,
};
use gmud_backend::tokens::{verify_token, JwtClaims, TokenKind};
use gmud_backend::user::UserModel;

fn config(secure: bool) -> AppConfig {
    let vars = EnvVars {
        host: None,
        port: None,
        mongodb_uri: Some("mongodb://localhost:27017".to_string()),
        database_name: Some("gmud".to_string()),
        jwt_secret: Some("segredo".to_string()),
        jwt_access_exp_minutes: None,
        jwt_refresh_exp_hours: Some("2".to_string()),
        auth_username: Some("admin".to_string()),
        auth_password: Some("admin123".to_string()),
        auth_role: Some(" Approver ".to_string()),
        cookie_secure: Some(if secure { "true" } else { "false" }.to_string()),
        cors_allowed_origins: None,
    };
    AppConfig::from_vars(vars).expect("config")
}

fn stored(hash: Option<String>) -> UserModel {
    UserModel { id: None, name: "maria".to_string(), role: UserRole::Developer, password_hash: hash }
}

#[test]
fn login_with_configured_credentials_grants_configured_role() {
    let c = config(false);
    assert_eq!(verify_user_login(&c, None, "admin", "admin123").unwrap(), UserRole::Approver);
    match verify_user_login(&c, None, "admin", "x") {
        Err(ApiError::Unauthorized(m)) => assert_eq!(m, "credenciais invalidas"),
        other => panic!("unexpected {:?}", other),
    }
}

#[test]
fn stored_user_decides_login() {
    let c = config(false);
    let hash = bcrypt::hash("senha123", 4).unwrap();
    assert_eq!(verify_user_login(&c, Some(stored(Some(hash.clone()))), "maria", "senha123").unwrap(), UserRole::Developer);
    match verify_user_login(&c, Some(stored(Some(hash))), "maria", "admin123") {
        Err(ApiError::Unauthorized(m)) => assert_eq!(m, "credenciais invalidas"),
        other => panic!("unexpected {:?}", other),
    }
    let admin_named = UserModel { id: None, name: "admin".to_string(), role: UserRole::Developer, password_hash: Some(bcrypt::hash("outra", 4).unwrap()) };
    assert!(verify_user_login(&c, Some(admin_named), "admin", "admin123").is_err());
}

#[test]
fn stored_user_without_password_is_refused() {
    let c = config(false);
    match verify_user_login(&c, Some(stored(None)), "maria", "x") {
        Err(ApiError::Unauthorized(m)) => assert_eq!(m, "usuario sem senha configurada"),
        other => panic!("unexpected {:?}", other),
    }
    match verify_user_login(&c, Some(stored(Some("lixo".to_string()))), "maria", "x") {
        Err(ApiError::Internal(m)) => assert_eq!(m, "falha ao validar senha"),
        other => panic!("unexpected {:?}", other),
    }
}

#[test]
fn login_session_cookies_and_body() {
    let c = config(true);
    let s = login_session(&c, "maria", UserRole::Admin).unwrap();
    assert_eq!(s.access_cookie.name, "gmud_access_token");
    assert_eq!(s.access_cookie.path, "/");
    assert!(s.access_cookie.http_only && s.access_cookie.secure);
    assert_eq!(s.access_cookie.same_site, SameSite::Lax);
    assert_eq!(s.access_cookie.max_age_seconds, None);
    assert_eq!(s.refresh_cookie.name, "gmud_refresh_token");
    assert_eq!(s.refresh_cookie.path, "/api/v1/auth/refresh");
    assert_eq!(s.refresh_cookie.max_age_seconds, Some(7200));
    assert_ne!(s.access_cookie.value, s.refresh_cookie.value);
    assert_eq!(s.body.message, "autenticado com sucesso");
    assert_eq!(s.body.user.username, "maria");
    assert_eq!(s.body.user.role, UserRole::Admin);
}

#[test]
fn logout_cookies_clear_login_cookies() {
    let c = config(false);
    let s = login_session(&c, "maria", UserRole::Admin).unwrap();
    let (a, r) = logout_cookies(&c);
    assert_eq!(a.name, s.access_cookie.name);
    assert_eq!(a.path, s.access_cookie.path);
    assert_eq!(r.name, s.refresh_cookie.name);
    assert_eq!(r.path, s.refresh_cookie.path);
    assert_eq!(a.value, "");
    assert_eq!(r.value, "");
    assert_eq!(a.max_age_seconds, Some(0));
    assert_eq!(r.max_age_seconds, Some(0));
    assert!(!a.secure && a.http_only);
}

#[test]
fn cookie_builders() {
    let c = config(false);
    let a = access_cookie(&c, "tok".to_string());
    assert_eq!(a.value, "tok");
    let r = refresh_cookie(&c, "ref".to_string());
    assert_eq!(r.value, "ref");
    assert_eq!(r.max_age_seconds, Some(2 * 3600));
}

#[test]
fn refresh_session_issues_access_cookie() {
    let c = config(false);
    let claims = JwtClaims {
        sub: "maria".to_string(),
        role: "developer".to_string(),
        token_type: "refresh".to_string(),
        jti: "j".to_string(),
        iat: 1,
        exp: 2,
    };
    let o = refresh_session(&c, claims).unwrap();
    assert_eq!(o.username, "maria");
    assert_eq!(o.role, UserRole::Developer);
    assert_eq!(o.access_cookie.name, "gmud_access_token");
    assert!(!o.access_cookie.value.is_empty());
}

#[test]
fn cookie_token_missing() {
    match cookie_token(TokenKind::Access, None) {
        Err(ApiError::Unauthorized(m)) => assert_eq!(m, "cookie de autenticacao ausente"),
        other => panic!("unexpected {:?}", other),
    }
    match cookie_token(TokenKind::Refresh, None) {
        Err(ApiError::Unauthorized(m)) => assert_eq!(m, "refresh token ausente"),
        other => panic!("unexpected {:?}", other),
    }
    assert_eq!(cookie_token(TokenKind::Access, Some("t".to_string())).unwrap(), "t");
}

#[test]
fn me_shows_user() {
    let d = me(AuthenticatedUser { username: "ana".to_string(), role: UserRole::Approver });
    assert_eq!(d.username, "ana");
    assert_eq!(d.role, UserRole::Approver);
}

fn claims_of(text: &str) -> serde_json::Value {
    serde_json::from_str(text).unwrap()
}

fn unix_now() -> usize {
    std::time::SystemTime::now().duration_since(std::time::UNIX_EPOCH).unwrap().as_secs() as usize
}

#[test]
fn login_session_at_signs_both_tokens() {
    let c = config(false);
    let now = unix_now();
    let s = login_session_at(&c, "maria", UserRole::Approver, now, "a".to_string(), now + 1, "r".to_string()).unwrap();
    let access = claims_of(&verify_token(&c, &s.access_cookie.value, TokenKind::Access).unwrap());
    assert_eq!(access["sub"], "maria");
    assert_eq!(access["role"], "approver");
    assert_eq!(access["token_type"], "access");
    assert_eq!(access["jti"], "a");
    assert_eq!(access["iat"].as_u64().unwrap() as usize, now);
    assert_eq!(access["exp"].as_u64().unwrap() as usize, now + 15 * 60);
    let refresh = claims_of(&verify_token(&c, &s.refresh_cookie.value, TokenKind::Refresh).unwrap());
    assert_eq!(refresh["token_type"], "refresh");
    assert_eq!(refresh["jti"], "r");
    assert_eq!(refresh["exp"].as_u64().unwrap() as usize, now + 1 + 2 * 3600);
    assert_eq!(s.refresh_cookie.max_age_seconds, Some(7200));
    assert_eq!(s.body.user.role, UserRole::Approver);
}

#[test]
fn login_session_at_refuses_expiry_past_usize() {
    let c = config(false);
    match login_session_at(&c, "maria", UserRole::Admin, usize::MAX, "a".to_string(), 0, "r".to_string()) {
        Err(ApiError::Internal(m)) => assert_eq!(m, "falha ao gerar token"),
        other => panic!("unexpected {:?}", other.map(|s| s.body.message)),
    }
    match login_session_at(&c, "maria", UserRole::Admin, 0, "a".to_string(), usize::MAX - 100, "r".to_string()) {
        Err(ApiError::Internal(m)) => assert_eq!(m, "falha ao gerar token"),
        other => panic!("unexpected {:?}", other.map(|s| s.body.message)),
    }
}

#[test]
fn refresh_session_at_issues_access_token_for_subject() {
    let c = config(false);
    let now = unix_now();
    let claims = JwtClaims {
        sub: "maria".to_string(),
        role: " ADMIN ".to_string(),
        token_type: "refresh".to_string(),
        jti: "j".to_string(),
        iat: 1,
        exp: 2,
    };
    let o = refresh_session_at(&c, claims, now, "n".to_string()).unwrap();
    assert_eq!(o.role, UserRole::Admin);
    let access = claims_of(&verify_token(&c, &o.access_cookie.value, TokenKind::Access).unwrap());
    assert_eq!(access["sub"], "maria");
    assert_eq!(access["role"], "admin");
    assert_eq!(access["jti"], "n");
    assert_eq!(access["exp"].as_u64().unwrap() as usize, now + 900);
    let bad = JwtClaims {
        sub: "maria".to_string(),
        role: "chefe".to_string(),
        token_type: "refresh".to_string(),
        jti: "j".to_string(),
        iat: 1,
        exp: 2,
    };
    match refresh_session_at(&c, bad, now, "n".to_string()) {
        Err(ApiError::Validation(m)) => assert_eq!(m, "role invalido"),
        other => panic!("unexpected {:?}", other.map(|o| o.username)),
    }
}

#[test]
fn sessions_of_no_lifetime_succeed() {
    let mut c = config(false);
    c.jwt_access_exp_minutes = 0;
    c.jwt_refresh_exp_hours = 0;
    let s = login_session(&c, "maria", UserRole::Developer).unwrap();
    assert_eq!(s.refresh_cookie.max_age_seconds, Some(0));
    let claims = JwtClaims {
        sub: "maria".to_string(),
        role: "approver".to_string(),
        token_type: "refresh".to_string(),
        jti: "j".to_string(),
        iat: 1,
        exp: 2,
    };
    let o = refresh_session(&c, claims).unwrap();
    assert_eq!(o.role, UserRole::Approver);
}

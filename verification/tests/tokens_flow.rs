use gmud_backend::config::{AppConfig, EnvVars};
use gmud_backend::error::ApiError;
use gmud_backend::roles::UserRole;
use gmud_backend::tokens::{
    accept_claims, authenticated_user_from_claims, claims_json, create_jwt, create_jwt_at,
    create_refresh_jwt, create_refresh_jwt_at, issue_token_at, token_check_outcome, token_claims,
    verify_token, JwtClaims, TokenKind,
};

fn config() -> AppConfig {
    let vars = EnvVars {
        host: None,
        port: None,
        mongodb_uri: Some("mongodb://localhost:27017".to_string()),
        database_name: Some("gmud".to_string()),
        jwt_secret: Some("segredo-de-teste".to_string()),
        jwt_access_exp_minutes: Some("15".to_string()),
        jwt_refresh_exp_hours: Some("72".to_string()),
        auth_username: Some("admin".to_string()),
        auth_password: Some("admin123".to_string()),
        auth_role: None,
        cookie_secure: None,
        cors_allowed_origins: None,
    };
    AppConfig::from_vars(vars).expect("config")
}

fn parse_claims(text: &str) -> Option<JwtClaims> {
    let v: serde_json::Value = serde_json::from_str(text).ok()?;
    Some(JwtClaims {
        sub: v.get("sub")?.as_str()?.to_string(),
        role: v.get("role")?.as_str()?.to_string(),
        token_type: v.get("token_type")?.as_str()?.to_string(),
        jti: v.get("jti")?.as_str()?.to_string(),
        iat: v.get("iat")?.as_u64()? as usize,
        exp: v.get("exp")?.as_u64()? as usize,
    })
}

fn unix_now() -> usize {
    std::time::SystemTime::now().duration_since(std::time::UNIX_EPOCH).unwrap().as_secs() as usize
}

#[test]
fn claims_json_escapes_as_serde_json() {
    for s in ["", "maria", "a\"b\\c", "linha\nnova\ttab\r", "\u{1}\u{1f}\u{8}\u{c}", "ação 漢字 \u{7f} /"] {
        let c = token_claims(s, &UserRole::Admin, s, 1, true, 0, s.to_string());
        let expected = format!(
            "{{\"sub\":{q},\"role\":\"admin\",\"token_type\":{q},\"jti\":{q},\"iat\":0,\"exp\":60}}",
            q = serde_json::to_string(s).unwrap()
        );
        assert_eq!(claims_json(&c), expected);
    }
}

#[test]
fn claims_json_exact_text() {
    let c = token_claims("jo\"ao", &UserRole::Developer, "access", 15, true, 1000, "id-1".to_string());
    assert_eq!(c.exp, 1900);
    assert_eq!(
        claims_json(&c),
        "{\"sub\":\"jo\\\"ao\",\"role\":\"developer\",\"token_type\":\"access\",\"jti\":\"id-1\",\"iat\":1000,\"exp\":1900}"
    );
    let r = token_claims("x", &UserRole::Admin, "refresh", 2, false, 10, "j".to_string());
    assert_eq!(r.exp, 10 + 7200);
    assert_eq!(r.role, "admin");
}

#[test]
fn access_token_round_trip() {
    let cfg = config();
    let token = create_jwt(&cfg, "maria", &UserRole::Approver).unwrap();
    let text = verify_token(&cfg, &token, TokenKind::Access).unwrap();
    let claims = parse_claims(&text).unwrap();
    assert_eq!(claims.sub, "maria");
    assert_eq!(claims.role, "approver");
    assert_eq!(claims.token_type, "access");
    assert_eq!(claims.jti.len(), 36);
    assert_eq!(claims.exp - claims.iat, 15 * 60);
    assert_eq!(claims_json(&claims), text);
    let accepted = accept_claims(TokenKind::Access, Some(claims)).unwrap();
    let user = authenticated_user_from_claims(accepted).unwrap();
    assert_eq!(user.username, "maria");
    assert_eq!(user.role, UserRole::Approver);
}

#[test]
fn tokens_decode_with_jsonwebtoken_defaults() {
    let cfg = config();
    let token = create_refresh_jwt(&cfg, "ana", &UserRole::Admin).unwrap();
    let key = jsonwebtoken::DecodingKey::from_secret(b"segredo-de-teste");
    let data = jsonwebtoken::decode::<serde_json::Value>(&token, &key, &jsonwebtoken::Validation::default()).unwrap();
    assert_eq!(data.claims["token_type"], "refresh");
    assert_eq!(data.claims["sub"], "ana");
    assert_eq!(data.claims["exp"].as_u64().unwrap() - data.claims["iat"].as_u64().unwrap(), 72 * 3600);
}

#[test]
fn refresh_token_is_not_an_access_token() {
    let cfg = config();
    let token = create_refresh_jwt(&cfg, "maria", &UserRole::Admin).unwrap();
    let text = verify_token(&cfg, &token, TokenKind::Refresh).unwrap();
    let claims = parse_claims(&text).unwrap();
    match accept_claims(TokenKind::Access, Some(claims)) {
        Err(ApiError::Unauthorized(m)) => assert_eq!(m, "token de acesso invalido"),
        other => panic!("unexpected {:?}", other),
    }
    let token = create_jwt(&cfg, "maria", &UserRole::Admin).unwrap();
    let claims = parse_claims(&verify_token(&cfg, &token, TokenKind::Access).unwrap()).unwrap();
    match accept_claims(TokenKind::Refresh, Some(claims)) {
        Err(ApiError::Unauthorized(m)) => assert_eq!(m, "refresh token invalido"),
        other => panic!("unexpected {:?}", other),
    }
}

#[test]
fn bad_tokens_are_refused() {
    let cfg = config();
    match verify_token(&cfg, "not-a-token", TokenKind::Access) {
        Err(ApiError::Unauthorized(m)) => assert_eq!(m, "token invalido ou expirado"),
        other => panic!("unexpected {:?}", other),
    }
    match verify_token(&cfg, "a.b.c", TokenKind::Refresh) {
        Err(ApiError::Unauthorized(m)) => assert_eq!(m, "refresh token invalido ou expirado"),
        other => panic!("unexpected {:?}", other),
    }
    let mut other = config();
    other.jwt_secret = "outro".to_string();
    let token = create_jwt(&other, "maria", &UserRole::Admin).unwrap();
    assert!(verify_token(&cfg, &token, TokenKind::Access).is_err());
    match accept_claims(TokenKind::Access, None) {
        Err(ApiError::Unauthorized(m)) => assert_eq!(m, "token invalido ou expirado"),
        other => panic!("unexpected {:?}", other),
    }
}

#[test]
fn expired_token_is_refused() {
    let cfg = config();
    let c = token_claims("maria", &UserRole::Admin, "access", 1, true, 1000, "j".to_string());
    let header = jsonwebtoken::Header::default();
    let key = jsonwebtoken::EncodingKey::from_secret(b"segredo-de-teste");
    let raw = serde_json::value::RawValue::from_string(claims_json(&c)).unwrap();
    let token = jsonwebtoken::encode(&header, &raw, &key).unwrap();
    assert!(verify_token(&cfg, &token, TokenKind::Access).is_err());
}

#[test]
fn claims_with_unknown_role_are_refused() {
    let c = JwtClaims {
        sub: "maria".to_string(),
        role: "root".to_string(),
        token_type: "access".to_string(),
        jti: "j".to_string(),
        iat: 1,
        exp: 2,
    };
    match authenticated_user_from_claims(c) {
        Err(ApiError::Validation(m)) => assert_eq!(m, "role invalido"),
        other => panic!("unexpected {:?}", other),
    }
}

#[test]
fn token_check_outcome_cases() {
    assert_eq!(token_check_outcome(TokenKind::Access, Some("{}".to_string())).unwrap(), "{}");
    match token_check_outcome(TokenKind::Refresh, None) {
        Err(ApiError::Unauthorized(m)) => assert_eq!(m, "refresh token invalido ou expirado"),
        other => panic!("unexpected {:?}", other),
    }
}

#[test]
fn issue_token_at_signs_exact_claims() {
    let cfg = config();
    let now = unix_now();
    let token = issue_token_at(&cfg, "maria", &UserRole::Developer, "access", 15, true, now, "id-1".to_string()).unwrap();
    let text = verify_token(&cfg, &token, TokenKind::Access).unwrap();
    let expected = format!(
        "{{\"sub\":\"maria\",\"role\":\"developer\",\"token_type\":\"access\",\"jti\":\"id-1\",\"iat\":{},\"exp\":{}}}",
        now,
        now + 900
    );
    assert_eq!(text, expected);
    let key = jsonwebtoken::DecodingKey::from_secret(b"segredo-de-teste");
    let data = jsonwebtoken::decode::<serde_json::Value>(&token, &key, &jsonwebtoken::Validation::default()).unwrap();
    assert_eq!(data.claims["iat"].as_u64().unwrap() as usize, now);
    assert_eq!(data.header.alg, jsonwebtoken::Algorithm::HS256);
}

#[test]
fn issue_token_at_refuses_expiry_past_usize() {
    let cfg = config();
    match issue_token_at(&cfg, "maria", &UserRole::Admin, "access", 15, true, usize::MAX - 10, "j".to_string()) {
        Err(ApiError::Internal(m)) => assert_eq!(m, "falha ao gerar token"),
        other => panic!("unexpected {:?}", other),
    }
    match issue_token_at(&cfg, "maria", &UserRole::Admin, "refresh", u64::MAX, false, 0, "j".to_string()) {
        Err(ApiError::Internal(m)) => assert_eq!(m, "falha ao gerar token"),
        other => panic!("unexpected {:?}", other),
    }
    assert!(issue_token_at(&cfg, "maria", &UserRole::Admin, "access", 15, true, usize::MAX - 900, "j".to_string()).is_ok());
}

#[test]
fn create_jwt_at_and_refresh_at_use_configured_lifetimes() {
    let cfg = config();
    let now = unix_now();
    let access = create_jwt_at(&cfg, "ana", &UserRole::Approver, now, "a".to_string()).unwrap();
    let claims = parse_claims(&verify_token(&cfg, &access, TokenKind::Access).unwrap()).unwrap();
    assert_eq!((claims.sub.as_str(), claims.role.as_str(), claims.token_type.as_str()), ("ana", "approver", "access"));
    assert_eq!((claims.iat, claims.exp, claims.jti.as_str()), (now, now + 15 * 60, "a"));
    let refresh = create_refresh_jwt_at(&cfg, "ana", &UserRole::Approver, now, "r".to_string()).unwrap();
    let claims = parse_claims(&verify_token(&cfg, &refresh, TokenKind::Refresh).unwrap()).unwrap();
    assert_eq!(claims.token_type, "refresh");
    assert_eq!((claims.iat, claims.exp, claims.jti.as_str()), (now, now + 72 * 3600, "r"));
}

#[test]
fn token_checked_under_other_secret_is_refused() {
    let cfg = config();
    let mut other = config();
    other.jwt_secret = "outro".to_string();
    let token = create_jwt_at(&cfg, "maria", &UserRole::Admin, unix_now(), "x".to_string()).unwrap();
    assert!(verify_token(&cfg, &token, TokenKind::Access).is_ok());
    match verify_token(&other, &token, TokenKind::Access) {
        Err(ApiError::Unauthorized(m)) => assert_eq!(m, "token invalido ou expirado"),
        other => panic!("unexpected {:?}", other),
    }
}

#[test]
fn tokens_of_no_lifetime_are_always_issued() {
    let mut cfg = config();
    cfg.jwt_access_exp_minutes = 0;
    cfg.jwt_refresh_exp_hours = 0;
    let key = jsonwebtoken::DecodingKey::from_secret(b"segredo-de-teste");
    let mut validation = jsonwebtoken::Validation::default();
    validation.validate_exp = false;
    for token in [create_jwt(&cfg, "ana", &UserRole::Admin).unwrap(), create_refresh_jwt(&cfg, "ana", &UserRole::Admin).unwrap()] {
        let data = jsonwebtoken::decode::<serde_json::Value>(&token, &key, &validation).unwrap();
        assert_eq!(data.claims["exp"], data.claims["iat"]);
        assert_eq!(data.claims["sub"], "ana");
    }
}

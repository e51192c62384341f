use gmud_backend::config::{parse_bool_env, parse_u64_env, required_env, AppConfig, ConfigError, EnvVars};
use gmud_backend::cors::{origin_host_of, parse_allowed_origins};

fn base() -> EnvVars {
    EnvVars {
        host: None,
        port: None,
        mongodb_uri: Some("mongodb://localhost:27017".to_string()),
        database_name: Some("gmud".to_string()),
        jwt_secret: Some("segredo".to_string()),
        jwt_access_exp_minutes: None,
        jwt_refresh_exp_hours: None,
        auth_username: Some("admin".to_string()),
        auth_password: Some("admin123".to_string()),
        auth_role: None,
        cookie_secure: None,
        cors_allowed_origins: None,
    }
}

#[test]
fn config_defaults() {
    let c = AppConfig::from_vars(base()).unwrap();
    assert_eq!(c.host, "0.0.0.0");
    assert_eq!(c.port, 8080);
    assert_eq!(c.jwt_access_exp_minutes, 15);
    assert_eq!(c.jwt_refresh_exp_hours, 72);
    assert_eq!(c.auth_role, "admin");
    assert!(!c.cookie_secure);
    assert!(c.cors_allowed_origins.is_empty());
    assert_eq!(c.bind_address(), "0.0.0.0:8080");
}

#[test]
fn config_reads_given_values() {
    let mut v = base();
    v.host = Some("127.0.0.1".to_string());
    v.port = Some("+9090".to_string());
    v.jwt_access_exp_minutes = Some("30".to_string());
    v.jwt_refresh_exp_hours = Some("1".to_string());
    v.auth_role = Some("developer".to_string());
    v.cookie_secure = Some("YES".to_string());
    v.cors_allowed_origins = Some(" http://a.example , ,http://b.example:8080,".to_string());
    let c = AppConfig::from_vars(v).unwrap();
    assert_eq!(c.bind_address(), "127.0.0.1:9090");
    assert_eq!(c.jwt_access_exp_minutes, 30);
    assert_eq!(c.jwt_refresh_exp_hours, 1);
    assert_eq!(c.auth_role, "developer");
    assert!(c.cookie_secure);
    assert_eq!(c.cors_allowed_origins, vec!["http://a.example".to_string(), "http://b.example:8080".to_string()]);
}

#[test]
fn config_invalid_port() {
    for bad in ["70000", "-1", "", "80a", "+"] {
        let mut v = base();
        v.port = Some(bad.to_string());
        match AppConfig::from_vars(v) {
            Err(ConfigError::InvalidPort(p)) => assert_eq!(p, bad),
            other => panic!("unexpected {:?}", other),
        }
    }
}

#[test]
fn config_missing_vars_in_order() {
    let mut v = base();
    v.jwt_secret = None;
    v.auth_password = None;
    match AppConfig::from_vars(v) {
        Err(e) => assert_eq!(e.message(), "variavel de ambiente obrigatoria ausente: JWT_SECRET"),
        Ok(_) => panic!("expected error"),
    }
    let mut v = base();
    v.auth_password = None;
    match AppConfig::from_vars(v) {
        Err(ConfigError::MissingEnvVar(k)) => assert_eq!(k, "AUTH_PASSWORD"),
        other => panic!("unexpected {:?}", other),
    }
}

#[test]
fn config_port_checked_before_required_vars() {
    let mut v = base();
    v.port = Some("x".to_string());
    v.mongodb_uri = None;
    assert!(matches!(AppConfig::from_vars(v), Err(ConfigError::InvalidPort(_))));
}

#[test]
fn config_invalid_numbers_and_bools() {
    let mut v = base();
    v.jwt_refresh_exp_hours = Some("1.5".to_string());
    match AppConfig::from_vars(v) {
        Err(ConfigError::InvalidEnvValue(k)) => assert_eq!(k, "JWT_REFRESH_EXP_HOURS"),
        other => panic!("unexpected {:?}", other),
    }
    let mut v = base();
    v.cookie_secure = Some("sim".to_string());
    match AppConfig::from_vars(v) {
        Err(e) => assert_eq!(e.message(), "valor invalido para variavel de ambiente: COOKIE_SECURE"),
        Ok(_) => panic!("expected error"),
    }
}

#[test]
fn parse_u64_env_cases() {
    assert_eq!(parse_u64_env("K", None, 7).unwrap(), 7);
    assert_eq!(parse_u64_env("K", Some("18446744073709551615"), 7).unwrap(), u64::MAX);
    assert!(parse_u64_env("K", Some("18446744073709551616"), 7).is_err());
    assert_eq!(parse_u64_env("K", Some("007"), 7).unwrap(), 7);
    assert!(parse_u64_env("K", Some(" 1"), 7).is_err());
}

#[test]
fn parse_bool_env_spellings() {
    for t in ["true", "1", "yes", "TRUE", "Yes"] {
        assert!(parse_bool_env("K", Some(t), false).unwrap());
    }
    for f in ["false", "0", "no", "NO", "False"] {
        assert!(!parse_bool_env("K", Some(f), true).unwrap());
    }
    assert!(parse_bool_env("K", None, true).unwrap());
    assert!(parse_bool_env("K", Some(" true"), true).is_err());
}

#[test]
fn required_env_cases() {
    assert_eq!(required_env("K", Some("v".to_string())).unwrap(), "v");
    match required_env("K", None) {
        Err(ConfigError::MissingEnvVar(k)) => assert_eq!(k, "K"),
        other => panic!("unexpected {:?}", other),
    }
}

#[test]
fn cors_origins_allowed() {
    let mut v = base();
    v.cors_allowed_origins = Some("http://intranet.example:3000".to_string());
    let c = AppConfig::from_vars(v).unwrap();
    assert!(c.origin_allowed("http://intranet.example:3000"));
    assert!(!c.origin_allowed("http://intranet.example:3001"));
    assert!(c.origin_allowed("http://localhost:3000"));
    assert!(c.origin_allowed("https://127.0.0.1"));
    assert!(c.origin_allowed("http://gmud.192.168.2.144.sslip.io"));
    assert!(c.origin_allowed("http://sslip.io"));
    assert!(!c.origin_allowed("http://evilsslip.io"));
    assert!(!c.origin_allowed("http://localhost.evil.example"));
    assert!(!c.origin_allowed("http://example.com"));
}

#[test]
fn cors_helpers() {
    assert_eq!(origin_host_of("http://localhost:3000"), "localhost");
    assert_eq!(origin_host_of("https://a.b/c"), "a.b");
    assert_eq!(origin_host_of("localhost"), "localhost");
    assert_eq!(parse_allowed_origins(""), Vec::<String>::new());
    assert_eq!(parse_allowed_origins("a,b"), vec!["a".to_string(), "b".to_string()]);
}

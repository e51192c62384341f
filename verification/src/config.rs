use vstd::prelude::*;

use crate::cors::{listed_origins, origin_allowed, origin_allowed_spec, parse_allowed_origins, views};
use crate::text::{
    append_decimal, decimal, opt_view, owned, parse_unsigned, parse_unsigned_spec, text_eq,
    to_lowercase, unicode_lowercase,
};

verus! {

/// Settings of the service, read from environment variables.
#[derive(Debug)]
pub struct AppConfig {
    pub host: String,
    pub port: u16,
    pub mongodb_uri: String,
    pub database_name: String,
    pub jwt_secret: String,
    pub jwt_access_exp_minutes: u64,
    pub jwt_refresh_exp_hours: u64,
    pub auth_username: String,
    pub auth_password: String,
    pub auth_role: String,
    pub cookie_secure: bool,
    /// Origins listed in `CORS_ALLOWED_ORIGINS`, trimmed, empty entries left out.
    pub cors_allowed_origins: Vec<String>,
}

/// The raw values of the environment variables the configuration reads;
/// `None` where a variable is unset or not valid Unicode.
#[derive(Debug)]
pub struct EnvVars {
    pub host: Option<String>,
    pub port: Option<String>,
    pub mongodb_uri: Option<String>,
    pub database_name: Option<String>,
    pub jwt_secret: Option<String>,
    pub jwt_access_exp_minutes: Option<String>,
    pub jwt_refresh_exp_hours: Option<String>,
    pub auth_username: Option<String>,
    pub auth_password: Option<String>,
    pub auth_role: Option<String>,
    pub cookie_secure: Option<String>,
    pub cors_allowed_origins: Option<String>,
}

/// Why the configuration could not be read.
#[derive(Debug)]
pub enum ConfigError {
    /// A required variable (named here) is unset.
    MissingEnvVar(String),
    /// `PORT` (its raw value here) is not a valid port number.
    InvalidPort(String),
    /// The variable named here holds a value that cannot be read.
    InvalidEnvValue(String),
}

pub enum ConfigErrorView {
    MissingEnvVar(Seq<char>),
    InvalidPort(Seq<char>),
    InvalidEnvValue(Seq<char>),
}

impl View for ConfigError {
    type V = ConfigErrorView;

    open spec fn view(&self) -> ConfigErrorView {
        match self {
            ConfigError::MissingEnvVar(k) => ConfigErrorView::MissingEnvVar(k@),
            ConfigError::InvalidPort(v) => ConfigErrorView::InvalidPort(v@),
            ConfigError::InvalidEnvValue(k) => ConfigErrorView::InvalidEnvValue(k@),
        }
    }
}

/// The spelling of a boolean setting: `true`, `1`, `yes` or `false`, `0`, `no`.
pub open spec fn bool_from_text(s: Seq<char>) -> Option<bool> {
    if s == "true"@ || s == "1"@ || s == "yes"@ {
        Some(true)
    } else if s == "false"@ || s == "0"@ || s == "no"@ {
        Some(false)
    } else {
        None
    }
}

/// The value of a variable that must be set.
pub fn required_env(key: &str, value: Option<String>) -> (res: Result<String, ConfigError>)
    ensures
        match opt_view(value) {
            Some(v) => res matches Ok(s) && s@ == v,
            None => res matches Err(e) && e@ == ConfigErrorView::MissingEnvVar(key@),
        },
{
    match value {
        Some(v) => Ok(v),
        None => Err(ConfigError::MissingEnvVar(owned(key))),
    }
}

/// A numeric variable: `default` when unset, its decimal value otherwise.
pub fn parse_u64_env(key: &str, value: Option<&str>, default: u64) -> (res: Result<u64, ConfigError>)
    ensures
        match value {
            None => res == Ok::<u64, ConfigError>(default),
            Some(v) => match parse_unsigned_spec(v@, u64::MAX as nat) {
                Some(n) => res == Ok::<u64, ConfigError>(n as u64),
                None => res matches Err(e) && e@ == ConfigErrorView::InvalidEnvValue(key@),
            },
        },
{
    match value {
        None => Ok(default),
        Some(v) => match parse_unsigned(v, u64::MAX) {
            Some(n) => Ok(n),
            None => Err(ConfigError::InvalidEnvValue(owned(key))),
        },
    }
}

/// A boolean variable: `default` when unset; otherwise its lowercase form
/// must be one of the spellings of [`bool_from_text`].
pub fn parse_bool_env(key: &str, value: Option<&str>, default: bool) -> (res: Result<bool, ConfigError>)
    ensures
        match value {
            None => res == Ok::<bool, ConfigError>(default),
            Some(v) => match bool_from_text(unicode_lowercase(v@)) {
                Some(b) => res == Ok::<bool, ConfigError>(b),
                None => res matches Err(e) && e@ == ConfigErrorView::InvalidEnvValue(key@),
            },
        },
{
    match value {
        None => Ok(default),
        Some(v) => {
            let lower = to_lowercase(v);
            parse_bool_text(key, lower.as_str())
        },
    }
}

/// The boolean that the lowercase text `lower` spells, as [`parse_bool_env`]
/// reads it after lowering the case.
pub fn parse_bool_text(key: &str, lower: &str) -> (res: Result<bool, ConfigError>)
    ensures
        match bool_from_text(lower@) {
            Some(b) => res == Ok::<bool, ConfigError>(b),
            None => res matches Err(e) && e@ == ConfigErrorView::InvalidEnvValue(key@),
        },
{
    if text_eq(lower, "true") || text_eq(lower, "1") || text_eq(lower, "yes") {
        Ok(true)
    } else if text_eq(lower, "false") || text_eq(lower, "0") || text_eq(lower, "no") {
        Ok(false)
    } else {
        Err(ConfigError::InvalidEnvValue(owned(key)))
    }
}

} // verus!

verus! {

/// `PORT` as read: its value, or `8080` when unset.
pub open spec fn port_text(vars: &EnvVars) -> Seq<char> {
    match opt_view(vars.port) {
        Some(p) => p,
        None => "8080"@,
    }
}

pub open spec fn u64_setting_ok(value: Option<String>) -> bool {
    match opt_view(value) {
        Some(t) => parse_unsigned_spec(t, u64::MAX as nat) is Some,
        None => true,
    }
}

pub open spec fn u64_setting(value: Option<String>, default: u64) -> u64 {
    match opt_view(value) {
        Some(t) => parse_unsigned_spec(t, u64::MAX as nat)->0 as u64,
        None => default,
    }
}

pub open spec fn bool_setting_ok(value: Option<String>) -> bool {
    match opt_view(value) {
        Some(t) => bool_from_text(unicode_lowercase(t)) is Some,
        None => true,
    }
}

pub open spec fn bool_setting(value: Option<String>, default: bool) -> bool {
    match opt_view(value) {
        Some(t) => bool_from_text(unicode_lowercase(t))->0,
        None => default,
    }
}

/// The first problem found in the variables, checked in this order:
/// `PORT`, `MONGODB_URI`, `DATABASE_NAME`, `JWT_SECRET`,
/// `JWT_ACCESS_EXP_MINUTES`, `JWT_REFRESH_EXP_HOURS`, `AUTH_USERNAME`,
/// `AUTH_PASSWORD`, `COOKIE_SECURE`.
pub open spec fn config_problem(vars: &EnvVars) -> Option<ConfigErrorView> {
    if parse_unsigned_spec(port_text(vars), u16::MAX as nat) is None {
        Some(ConfigErrorView::InvalidPort(port_text(vars)))
    } else if vars.mongodb_uri is None {
        Some(ConfigErrorView::MissingEnvVar("MONGODB_URI"@))
    } else if vars.database_name is None {
        Some(ConfigErrorView::MissingEnvVar("DATABASE_NAME"@))
    } else if vars.jwt_secret is None {
        Some(ConfigErrorView::MissingEnvVar("JWT_SECRET"@))
    } else if !u64_setting_ok(vars.jwt_access_exp_minutes) {
        Some(ConfigErrorView::InvalidEnvValue("JWT_ACCESS_EXP_MINUTES"@))
    } else if !u64_setting_ok(vars.jwt_refresh_exp_hours) {
        Some(ConfigErrorView::InvalidEnvValue("JWT_REFRESH_EXP_HOURS"@))
    } else if vars.auth_username is None {
        Some(ConfigErrorView::MissingEnvVar("AUTH_USERNAME"@))
    } else if vars.auth_password is None {
        Some(ConfigErrorView::MissingEnvVar("AUTH_PASSWORD"@))
    } else if !bool_setting_ok(vars.cookie_secure) {
        Some(ConfigErrorView::InvalidEnvValue("COOKIE_SECURE"@))
    } else {
        None
    }
}

fn opt_str(o: &Option<String>) -> (res: Option<&str>)
    ensures
        match (o, res) {
            (Some(s), Some(r)) => r@ == s@,
            (None, None) => true,
            _ => false,
        },
{
    match o {
        Some(s) => Some(s.as_str()),
        None => None,
    }
}

impl AppConfig {
    /// Reads the configuration from the variables' values. Defaults:
    /// `HOST` `0.0.0.0`, `PORT` `8080`, `JWT_ACCESS_EXP_MINUTES` 15,
    /// `JWT_REFRESH_EXP_HOURS` 72, `AUTH_ROLE` `admin`, `COOKIE_SECURE` false.
    pub fn from_vars(vars: EnvVars) -> (res: Result<AppConfig, ConfigError>)
        ensures
            match config_problem(&vars) {
                Some(p) => res matches Err(e) && e@ == p,
                None => res matches Ok(c) && {
                    &&& c.host@ == (match opt_view(vars.host) {
                        Some(h) => h,
                        None => "0.0.0.0"@,
                    })
                    &&& c.port as nat == parse_unsigned_spec(port_text(&vars), u16::MAX as nat)->0
                    &&& Some(c.mongodb_uri@) == opt_view(vars.mongodb_uri)
                    &&& Some(c.database_name@) == opt_view(vars.database_name)
                    &&& Some(c.jwt_secret@) == opt_view(vars.jwt_secret)
                    &&& c.jwt_access_exp_minutes == u64_setting(vars.jwt_access_exp_minutes, 15)
                    &&& c.jwt_refresh_exp_hours == u64_setting(vars.jwt_refresh_exp_hours, 72)
                    &&& Some(c.auth_username@) == opt_view(vars.auth_username)
                    &&& Some(c.auth_password@) == opt_view(vars.auth_password)
                    &&& c.auth_role@ == (match opt_view(vars.auth_role) {
                        Some(r) => r,
                        None => "admin"@,
                    })
                    &&& c.cookie_secure == bool_setting(vars.cookie_secure, false)
                    &&& views(c.cors_allowed_origins@) == (match opt_view(vars.cors_allowed_origins) {
                        Some(raw) => listed_origins(raw),
                        None => Seq::empty(),
                    })
                },
            },
    {
        let host = match vars.host {
            Some(h) => h,
            None => owned("0.0.0.0"),
        };
        let port_raw = match vars.port {
            Some(p) => p,
            None => owned("8080"),
        };
        let port = match parse_unsigned(port_raw.as_str(), 65535) {
            Some(p) => p as u16,
            None => {
                return Err(ConfigError::InvalidPort(port_raw));
            },
        };
        let mongodb_uri = required_env("MONGODB_URI", vars.mongodb_uri)?;
        let database_name = required_env("DATABASE_NAME", vars.database_name)?;
        let jwt_secret = required_env("JWT_SECRET", vars.jwt_secret)?;
        let jwt_access_exp_minutes = parse_u64_env(
            "JWT_ACCESS_EXP_MINUTES",
            opt_str(&vars.jwt_access_exp_minutes),
            15,
        )?;
        let jwt_refresh_exp_hours = parse_u64_env(
            "JWT_REFRESH_EXP_HOURS",
            opt_str(&vars.jwt_refresh_exp_hours),
            72,
        )?;
        let auth_username = required_env("AUTH_USERNAME", vars.auth_username)?;
        let auth_password = required_env("AUTH_PASSWORD", vars.auth_password)?;
        let auth_role = match vars.auth_role {
            Some(r) => r,
            None => owned("admin"),
        };
        let cookie_secure = parse_bool_env("COOKIE_SECURE", opt_str(&vars.cookie_secure), false)?;
        let cors_allowed_origins = match &vars.cors_allowed_origins {
            Some(raw) => parse_allowed_origins(raw.as_str()),
            None => {
                let v: Vec<String> = Vec::new();
                proof {
                    assert(views(v@) =~= Seq::<Seq<char>>::empty());
                }
                v
            },
        };
        Ok(AppConfig {
            host,
            port,
            mongodb_uri,
            database_name,
            jwt_secret,
            jwt_access_exp_minutes,
            jwt_refresh_exp_hours,
            auth_username,
            auth_password,
            auth_role,
            cookie_secure,
            cors_allowed_origins,
        })
    }

    /// Whether a browser origin may call the API: listed in
    /// `CORS_ALLOWED_ORIGINS`, or on `localhost`, `127.0.0.1` or `sslip.io`.
    pub fn origin_allowed(&self, origin: &str) -> (res: bool)
        ensures
            res == origin_allowed_spec(views(self.cors_allowed_origins@), origin@),
    {
        origin_allowed(&self.cors_allowed_origins, origin)
    }

    /// The address the server binds: `host:port`.
    pub fn bind_address(&self) -> (res: String)
        ensures
            res@ == self.host@ + ":"@ + decimal(self.port as nat),
    {
        let mut s = owned(self.host.as_str());
        s.append(":");
        append_decimal(&mut s, self.port as u128);
        s
    }
}

} // verus!

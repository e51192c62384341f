use vstd::prelude::*;

use crate::access::{bad_credentials_error, verify_credentials, AuthenticatedUser};
use crate::config::AppConfig;
use crate::error::{ApiError, ErrorView};
use crate::roles::{parse_user_role, role_result, result_view, UserRole};
use crate::text::{ascii_lowercase, is_ascii_text, owned, trim_ws, unicode_lowercase};
use crate::tokens::{
    create_jwt_at, create_refresh_jwt_at, hs256_payload, hs256_token, issued_text, issued_token,
    lifetime_fits, lifetime_secs, new_token_id, now_timestamp, token_failure_error, token_type_name,
    JwtClaims, TokenKind,
};
use crate::user::{bcrypt_check, verify_user_password, UserModel};

verus! {

/// Name of the cookie that carries the access token.
pub const AUTH_COOKIE_NAME: &'static str = "gmud_access_token";

/// Name of the cookie that carries the refresh token.
pub const REFRESH_COOKIE_NAME: &'static str = "gmud_refresh_token";

/// The path the refresh cookie is sent to.
pub const REFRESH_COOKIE_PATH: &'static str = "/api/v1/auth/refresh";

/// The `SameSite` policies the service sets.
#[derive(Clone, Copy, PartialEq, Eq, Structural, Debug)]
pub enum SameSite {
    Lax,
}

/// A cookie to set on a response.
#[derive(Debug)]
pub struct CookieSpec {
    pub name: String,
    pub value: String,
    pub http_only: bool,
    pub secure: bool,
    pub same_site: SameSite,
    pub path: String,
    /// `Max-Age` in seconds; `None` for a session cookie.
    pub max_age_seconds: Option<i64>,
}

/// The body of a login request.
#[derive(Debug)]
pub struct LoginRequestDto {
    pub username: String,
    pub password: String,
}

/// A user as the authentication endpoints show it.
#[derive(Debug)]
pub struct AuthUserDto {
    pub username: String,
    pub role: UserRole,
}

/// The body of a successful login.
#[derive(Debug)]
pub struct LoginResponseDto {
    pub message: String,
    pub user: AuthUserDto,
}

/// What a successful login sets and answers.
#[derive(Debug)]
pub struct LoginSession {
    pub access_cookie: CookieSpec,
    pub refresh_cookie: CookieSpec,
    pub body: LoginResponseDto,
}

/// What a successful refresh sets and answers.
#[derive(Debug)]
pub struct RefreshOutcome {
    pub access_cookie: CookieSpec,
    pub username: String,
    pub role: UserRole,
}

/// The attributes every cookie of the service shares: HTTP only, `Secure`
/// as configured, `SameSite=Lax`.
pub open spec fn common_attributes(c: &CookieSpec, config: &AppConfig) -> bool {
    &&& c.http_only
    &&& c.secure == config.cookie_secure
    &&& c.same_site == SameSite::Lax
}

/// The shape of the access cookie a login or refresh sets: path `/`, a
/// session cookie.
pub open spec fn is_access_cookie(c: &CookieSpec, config: &AppConfig) -> bool {
    &&& c.name@ == "gmud_access_token"@
    &&& c.path@ == "/"@
    &&& c.max_age_seconds is None
    &&& common_attributes(c, config)
}

/// The shape of the refresh cookie a login sets: sent only to the refresh
/// endpoint, kept for `jwt_refresh_exp_hours` hours.
pub open spec fn is_refresh_cookie(c: &CookieSpec, config: &AppConfig) -> bool {
    &&& c.name@ == "gmud_refresh_token"@
    &&& c.path@ == "/api/v1/auth/refresh"@
    &&& c.max_age_seconds == Some(((config.jwt_refresh_exp_hours as i64) * 3600) as i64)
    &&& common_attributes(c, config)
}

/// The shape of the cookies a logout sets: the two cookies of a login,
/// emptied and expiring at once.
pub open spec fn is_logout_pair(p: &(CookieSpec, CookieSpec), config: &AppConfig) -> bool {
    &&& p.0.name@ == "gmud_access_token"@
    &&& p.0.path@ == "/"@
    &&& p.1.name@ == "gmud_refresh_token"@
    &&& p.1.path@ == "/api/v1/auth/refresh"@
    &&& p.0.value@.len() == 0 && p.1.value@.len() == 0
    &&& p.0.max_age_seconds == Some(0i64) && p.1.max_age_seconds == Some(0i64)
    &&& common_attributes(&p.0, config) && common_attributes(&p.1, config)
}

/// The access cookie: path `/`, a session cookie.
pub fn access_cookie(config: &AppConfig, token: String) -> (res: CookieSpec)
    ensures
        is_access_cookie(&res, config),
        res.value@ == token@,
{
    CookieSpec {
        name: owned(AUTH_COOKIE_NAME),
        value: token,
        http_only: true,
        secure: config.cookie_secure,
        same_site: SameSite::Lax,
        path: owned("/"),
        max_age_seconds: None,
    }
}

/// Whether the refresh cookie's `Max-Age`, the configured hours taken as an
/// `i64` and counted in seconds, fits in an `i64`.
pub open spec fn refresh_max_age_fits(config: &AppConfig) -> bool {
    i64::MIN <= (config.jwt_refresh_exp_hours as i64) * 3600 <= i64::MAX
}

/// The refresh cookie: sent only to the refresh endpoint, kept for
/// `jwt_refresh_exp_hours` hours.
pub fn refresh_cookie(config: &AppConfig, token: String) -> (res: CookieSpec)
    requires
        refresh_max_age_fits(config),
    ensures
        is_refresh_cookie(&res, config),
        res.value@ == token@,
{
    CookieSpec {
        name: owned(REFRESH_COOKIE_NAME),
        value: token,
        http_only: true,
        secure: config.cookie_secure,
        same_site: SameSite::Lax,
        path: owned(REFRESH_COOKIE_PATH),
        max_age_seconds: Some((config.jwt_refresh_exp_hours as i64) * 3600),
    }
}

/// The two cookies of a logout: each replaces one cookie of a login (same
/// name and path) with an empty value that expires at once.
pub fn logout_cookies(config: &AppConfig) -> (res: (CookieSpec, CookieSpec))
    ensures
        is_logout_pair(&res, config),
{
    let access = CookieSpec {
        name: owned(AUTH_COOKIE_NAME),
        value: String::new(),
        http_only: true,
        secure: config.cookie_secure,
        same_site: SameSite::Lax,
        path: owned("/"),
        max_age_seconds: Some(0),
    };
    let refresh = CookieSpec {
        name: owned(REFRESH_COOKIE_NAME),
        value: String::new(),
        http_only: true,
        secure: config.cookie_secure,
        same_site: SameSite::Lax,
        path: owned(REFRESH_COOKIE_PATH),
        max_age_seconds: Some(0),
    };
    (access, refresh)
}

/// The role a login is granted. A stored user of that name decides alone:
/// it needs a password hash that the password matches. Without a stored
/// user the configured credentials decide, and grant the configured role.
pub fn verify_user_login(
    config: &AppConfig,
    stored: Option<UserModel>,
    username: &str,
    password: &str,
) -> (res: Result<UserRole, ApiError>)
    ensures
        match stored {
            Some(user) => match user.password_hash {
                None => res matches Err(e) && e@ == ErrorView::Unauthorized(
                    "usuario sem senha configurada"@,
                ),
                Some(h) => match bcrypt_check(password@, h@) {
                    Some(true) => res matches Ok(r) && r == user.role,
                    Some(false) => res matches Err(e) && e@ == bad_credentials_error(),
                    None => res matches Err(e) && e@ == ErrorView::Internal(
                        "falha ao validar senha"@,
                    ),
                },
            },
            None => if username@ == config.auth_username@ && password@ == config.auth_password@ {
                result_view(res) == role_result(unicode_lowercase(trim_ws(config.auth_role@)))
            } else {
                res matches Err(e) && e@ == bad_credentials_error()
            },
        },
{
    if let Some(user) = stored {
        let password_hash = match user.password_hash {
            Some(h) => h,
            None => {
                return Err(ApiError::Unauthorized(owned("usuario sem senha configurada")));
            },
        };
        if verify_user_password(password, password_hash.as_str())? {
            return Ok(user.role);
        }
        return Err(ApiError::Unauthorized(owned("credenciais invalidas")));
    }
    verify_credentials(config, username, password)?;
    parse_user_role(config.auth_role.as_str())
}

/// Whether `token` is a token issued to `username` with `role`, of `kind`,
/// living `exp_value` minutes or hours, signed with the configured secret.
pub open spec fn signed_token_for(
    token: Seq<char>,
    config: &AppConfig,
    username: Seq<char>,
    role: UserRole,
    kind: TokenKind,
    exp_value: u64,
    is_minutes: bool,
) -> bool {
    issued_token(token, config.jwt_secret@, username, role, token_type_name(kind), exp_value, is_minutes)
}

/// The claims text of the access token issued to `username` with `role` at
/// `now` with identifier `jti`.
pub open spec fn access_text_at(
    config: &AppConfig,
    username: Seq<char>,
    role: UserRole,
    now: usize,
    jti: Seq<char>,
) -> Seq<char> {
    issued_text(username, role, token_type_name(TokenKind::Access), config.jwt_access_exp_minutes, true, now, jti)
}

/// The claims text of the refresh token issued to `username` with `role`
/// at `now` with identifier `jti`.
pub open spec fn refresh_text_at(
    config: &AppConfig,
    username: Seq<char>,
    role: UserRole,
    now: usize,
    jti: Seq<char>,
) -> Seq<char> {
    issued_text(username, role, token_type_name(TokenKind::Refresh), config.jwt_refresh_exp_hours, false, now, jti)
}

/// Whether `token` is the token signed with the configured secret for the
/// claims text `text`, and checks back to that text.
pub open spec fn token_of_text(token: Seq<char>, config: &AppConfig, text: Seq<char>) -> bool {
    &&& token == hs256_token(text, config.jwt_secret@)
    &&& hs256_payload(token, config.jwt_secret@) == Some(text)
}

/// The cookies and body of a successful login of `username` with `role`,
/// the access token stamped `access_now` with identifier `access_jti`, the
/// refresh token stamped `refresh_now` with identifier `refresh_jti`.
/// Succeeds exactly where both expiries fit in a `usize`.
pub fn login_session_at(
    config: &AppConfig,
    username: &str,
    role: UserRole,
    access_now: usize,
    access_jti: String,
    refresh_now: usize,
    refresh_jti: String,
) -> (res: Result<LoginSession, ApiError>)
    requires
        refresh_max_age_fits(config),
    ensures
        res is Ok <==> lifetime_fits(config.jwt_access_exp_minutes, true, access_now) && lifetime_fits(
            config.jwt_refresh_exp_hours,
            false,
            refresh_now,
        ),
        res matches Ok(s) ==> {
            &&& is_access_cookie(&s.access_cookie, config)
            &&& token_of_text(
                s.access_cookie.value@,
                config,
                access_text_at(config, username@, role, access_now, access_jti@),
            )
            &&& is_refresh_cookie(&s.refresh_cookie, config)
            &&& token_of_text(
                s.refresh_cookie.value@,
                config,
                refresh_text_at(config, username@, role, refresh_now, refresh_jti@),
            )
            &&& s.body.message@ == "autenticado com sucesso"@
            &&& s.body.user.username@ == username@
            &&& s.body.user.role == role
        },
        res matches Err(e) ==> e@ == token_failure_error(),
{
    let token = create_jwt_at(config, username, &role, access_now, access_jti)?;
    let refresh_token = create_refresh_jwt_at(config, username, &role, refresh_now, refresh_jti)?;
    let access = access_cookie(config, token);
    let refresh = refresh_cookie(config, refresh_token);
    let body = LoginResponseDto {
        message: owned("autenticado com sucesso"),
        user: AuthUserDto { username: owned(username), role },
    };
    Ok(LoginSession { access_cookie: access, refresh_cookie: refresh, body })
}

/// The cookies and body of a successful login of `username` with `role`:
/// an access cookie with a fresh access token, a refresh cookie with a
/// fresh refresh token, and the user in the body. Each token is stamped
/// with the clock and a random identifier; a lifetime that does not fit in
/// a `usize` fails with an internal error.
pub fn login_session(config: &AppConfig, username: &str, role: UserRole) -> (res: Result<
    LoginSession,
    ApiError,
>)
    requires
        refresh_max_age_fits(config),
    ensures
        lifetime_secs(config.jwt_access_exp_minutes, true) > usize::MAX ==> res is Err,
        lifetime_secs(config.jwt_refresh_exp_hours, false) > usize::MAX ==> res is Err,
        lifetime_secs(config.jwt_access_exp_minutes, true) == 0 && lifetime_secs(
            config.jwt_refresh_exp_hours,
            false,
        ) == 0 ==> res is Ok,
        res matches Ok(s) ==> {
            &&& is_access_cookie(&s.access_cookie, config)
            &&& signed_token_for(
                s.access_cookie.value@,
                config,
                username@,
                role,
                TokenKind::Access,
                config.jwt_access_exp_minutes,
                true,
            )
            &&& is_refresh_cookie(&s.refresh_cookie, config)
            &&& signed_token_for(
                s.refresh_cookie.value@,
                config,
                username@,
                role,
                TokenKind::Refresh,
                config.jwt_refresh_exp_hours,
                false,
            )
            &&& s.body.message@ == "autenticado com sucesso"@
            &&& s.body.user.username@ == username@
            &&& s.body.user.role == role
        },
        res matches Err(e) ==> e@ == token_failure_error(),
{
    let access_now = now_timestamp();
    let access_jti = new_token_id();
    let refresh_now = now_timestamp();
    let refresh_jti = new_token_id();
    login_session_at(config, username, role, access_now, access_jti, refresh_now, refresh_jti)
}

/// A new access cookie for the holder of accepted refresh claims, the
/// token stamped `now` with identifier `jti`: the role its role claim
/// names, a fresh access token for the subject. Succeeds exactly where the
/// role claim names a role and the expiry fits in a `usize`.
pub fn refresh_session_at(config: &AppConfig, claims: JwtClaims, now: usize, jti: String) -> (res: Result<
    RefreshOutcome,
    ApiError,
>)
    ensures
        match role_result(unicode_lowercase(trim_ws(claims.role@))) {
            Err(e) => res matches Err(x) && x@ == e,
            Ok(role) => {
                &&& res is Ok <==> lifetime_fits(config.jwt_access_exp_minutes, true, now)
                &&& res matches Ok(o) ==> {
                    &&& o.username@ == claims.sub@
                    &&& o.role == role
                    &&& is_access_cookie(&o.access_cookie, config)
                    &&& token_of_text(
                        o.access_cookie.value@,
                        config,
                        access_text_at(config, claims.sub@, role, now, jti@),
                    )
                }
                &&& res matches Err(e) ==> e@ == token_failure_error()
            },
        },
        is_ascii_text(trim_ws(claims.role@)) ==> role_result(unicode_lowercase(trim_ws(claims.role@)))
            == role_result(ascii_lowercase(trim_ws(claims.role@))),
{
    let role = parse_user_role(claims.role.as_str())?;
    let token = create_jwt_at(config, claims.sub.as_str(), &role, now, jti)?;
    let cookie = access_cookie(config, token);
    Ok(RefreshOutcome { access_cookie: cookie, username: claims.sub, role })
}

/// A new access cookie for the holder of accepted refresh claims: the role
/// its role claim names, a fresh access token for the subject, stamped with
/// the clock and a random identifier.
pub fn refresh_session(config: &AppConfig, claims: JwtClaims) -> (res: Result<
    RefreshOutcome,
    ApiError,
>)
    ensures
        match role_result(unicode_lowercase(trim_ws(claims.role@))) {
            Err(e) => res matches Err(x) && x@ == e,
            Ok(role) => {
                &&& lifetime_secs(config.jwt_access_exp_minutes, true) > usize::MAX ==> res is Err
                &&& lifetime_secs(config.jwt_access_exp_minutes, true) == 0 ==> res is Ok
                &&& res matches Ok(o) ==> {
                    &&& o.username@ == claims.sub@
                    &&& o.role == role
                    &&& is_access_cookie(&o.access_cookie, config)
                    &&& signed_token_for(
                        o.access_cookie.value@,
                        config,
                        claims.sub@,
                        role,
                        TokenKind::Access,
                        config.jwt_access_exp_minutes,
                        true,
                    )
                }
                &&& res matches Err(e) ==> e@ == token_failure_error()
            },
        },
        is_ascii_text(trim_ws(claims.role@)) ==> role_result(unicode_lowercase(trim_ws(claims.role@)))
            == role_result(ascii_lowercase(trim_ws(claims.role@))),
{
    let now = now_timestamp();
    let jti = new_token_id();
    refresh_session_at(config, claims, now, jti)
}

/// A logout replaces both cookies of a login: each logout cookie has the
/// name and path of a login cookie (so the browser overwrites it), an
/// empty value, and expires at once.
pub proof fn lemma_logout_clears_login_cookies(
    access: &CookieSpec,
    refresh: &CookieSpec,
    logout: &(CookieSpec, CookieSpec),
    config: &AppConfig,
)
    requires
        is_access_cookie(access, config),
        is_refresh_cookie(refresh, config),
        is_logout_pair(logout, config),
    ensures
        logout.0.name@ == access.name@ && logout.0.path@ == access.path@,
        logout.1.name@ == refresh.name@ && logout.1.path@ == refresh.path@,
        logout.0.value@.len() == 0 && logout.1.value@.len() == 0,
        logout.0.max_age_seconds == Some(0i64) && logout.1.max_age_seconds == Some(0i64),
{
}

/// The refresh cookie is kept exactly as long as the refresh token it
/// carries lives (where the hours fit in a `usize`).
pub proof fn lemma_refresh_cookie_matches_token_lifetime(config: &AppConfig, c: &CookieSpec)
    requires
        is_refresh_cookie(c, config),
        config.jwt_refresh_exp_hours <= usize::MAX,
        config.jwt_refresh_exp_hours * 3600 <= i64::MAX,
    ensures
        c.max_age_seconds == Some(lifetime_secs(config.jwt_refresh_exp_hours, false) as i64),
{
}

/// The refusal given when the cookie a token travels in is absent.
pub open spec fn missing_cookie_error(kind: TokenKind) -> ErrorView {
    match kind {
        TokenKind::Access => ErrorView::Unauthorized("cookie de autenticacao ausente"@),
        TokenKind::Refresh => ErrorView::Unauthorized("refresh token ausente"@),
    }
}

/// The token the request's cookie carries, for the access or the refresh
/// cookie.
pub fn cookie_token(kind: TokenKind, cookie: Option<String>) -> (res: Result<String, ApiError>)
    ensures
        match cookie {
            Some(v) => res matches Ok(t) && t@ == v@,
            None => res matches Err(e) && e@ == missing_cookie_error(kind),
        },
{
    match cookie {
        Some(v) => Ok(v),
        None => match kind {
            TokenKind::Access => Err(ApiError::Unauthorized(owned("cookie de autenticacao ausente"))),
            TokenKind::Refresh => Err(ApiError::Unauthorized(owned("refresh token ausente"))),
        },
    }
}

/// The body of the `me` endpoint: the authenticated user.
pub fn me(user: AuthenticatedUser) -> (res: AuthUserDto)
    ensures
        res.username@ == user.username@,
        res.role == user.role,
{
    AuthUserDto { username: user.username, role: user.role }
}

} // verus!

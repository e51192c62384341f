use vstd::prelude::*;

use crate::access::AuthenticatedUser;
use crate::config::AppConfig;
use crate::error::{ApiError, ErrorView};
use crate::json::{json_string, json_text};
use crate::roles::{
    lemma_role_name_reads_back, parse_user_role, role_name_spec, role_result, UserRole,
};
use crate::text::{append_decimal, ascii_lowercase, decimal, is_ascii_text, owned, text_eq, trim_ws};

verus! {

/// The `token_type` claim of access tokens.
pub const ACCESS_TOKEN_CLAIM_TYPE: &'static str = "access";

/// The `token_type` claim of refresh tokens.
pub const REFRESH_TOKEN_CLAIM_TYPE: &'static str = "refresh";

/// The claims a token carries.
#[derive(Debug)]
pub struct JwtClaims {
    pub sub: String,
    pub role: String,
    pub token_type: String,
    pub jti: String,
    pub iat: usize,
    pub exp: usize,
}

/// The two kinds of token the service issues.
#[derive(Clone, Copy, PartialEq, Eq, Structural, Debug)]
pub enum TokenKind {
    Access,
    Refresh,
}

/// The `token_type` claim of each kind of token.
pub open spec fn token_type_name(kind: TokenKind) -> Seq<char> {
    match kind {
        TokenKind::Access => "access"@,
        TokenKind::Refresh => "refresh"@,
    }
}

/// Claims as JSON text, fields in declaration order, without spaces: the
/// form serde_json gives the claims struct.
pub open spec fn claims_text(
    sub: Seq<char>,
    role: Seq<char>,
    token_type: Seq<char>,
    jti: Seq<char>,
    iat: nat,
    exp: nat,
) -> Seq<char> {
    "{\"sub\":"@ + json_string(sub) + ",\"role\":"@ + json_string(role) + ",\"token_type\":"@
        + json_string(token_type) + ",\"jti\":"@ + json_string(jti) + ",\"iat\":"@ + decimal(iat)
        + ",\"exp\":"@ + decimal(exp) + "}"@
}

/// The claims as JSON text.
pub open spec fn claims_json_spec(c: &JwtClaims) -> Seq<char> {
    claims_text(c.sub@, c.role@, c.token_type@, c.jti@, c.iat as nat, c.exp as nat)
}

/// Writes the claims as JSON text.
pub fn claims_json(c: &JwtClaims) -> (res: String)
    ensures
        res@ == claims_json_spec(c),
{
    let mut s = owned("{\"sub\":");
    s.append(json_text(c.sub.as_str()).as_str());
    s.append(",\"role\":");
    s.append(json_text(c.role.as_str()).as_str());
    s.append(",\"token_type\":");
    s.append(json_text(c.token_type.as_str()).as_str());
    s.append(",\"jti\":");
    s.append(json_text(c.jti.as_str()).as_str());
    s.append(",\"iat\":");
    append_decimal(&mut s, c.iat as u128);
    s.append(",\"exp\":");
    append_decimal(&mut s, c.exp as u128);
    s.append("}");
    s
}

/// The token that jsonwebtoken's `encode` makes of claims given as JSON
/// text, with the default header (HS256) and an HMAC key of the secret's
/// bytes.
pub uninterp spec fn hs256_token(claims_json: Seq<char>, secret: Seq<char>) -> Seq<char>;

/// What jsonwebtoken's `decode` gives for a token, with an HMAC key of the
/// secret's bytes and the default validation, as the claims' JSON text,
/// leaving out only the comparison of `exp` with the clock: the claims text
/// where the token is three dot-separated parts whose HS256 header and
/// signature verify under the secret and whose claims are a JSON object
/// with a numeric `exp`; `None` otherwise.
pub uninterp spec fn hs256_payload(token: Seq<char>, secret: Seq<char>) -> Option<Seq<char>>;

/// Whether `text` is the JSON text of some claims.
pub open spec fn is_claims_text(text: Seq<char>) -> bool {
    exists|c: JwtClaims| text == #[trigger] claims_json_spec(&c)
}

/// jsonwebtoken's `encode` with the default header (HS256) and
/// `EncodingKey::from_secret` of the secret's bytes; the claims are handed
/// over as ready JSON text (serde_json's `RawValue`, which is written out
/// verbatim). The result is the token named by [`hs256_token`]. For claims
/// text neither call can fail (the text is valid JSON, and `encode` fails
/// only on a key of another algorithm family), and the token's payload is
/// that text, which `decode` gives back under the same secret.
#[verifier::external_body]
fn jwt_encode(claims_json: &str, secret: &str) -> (res: Option<String>)
    ensures
        res matches Some(t) ==> t@ == hs256_token(claims_json@, secret@),
        is_claims_text(claims_json@) ==> res is Some,
        res matches Some(t) ==> (is_claims_text(claims_json@) ==> hs256_payload(t@, secret@) == Some(claims_json@)),
{
    let raw = serde_json::value::RawValue::from_string(claims_json.to_string()).ok()?;
    let key = jsonwebtoken::EncodingKey::from_secret(secret.as_bytes());
    jsonwebtoken::encode(&jsonwebtoken::Header::default(), &raw, &key).ok()
}

/// jsonwebtoken's `decode` with `DecodingKey::from_secret` of the secret's
/// bytes and the default validation (HS256, `exp` required and checked
/// against the clock with 60 s of leeway); it gives the verified claims as
/// their JSON text. A token it accepts passes every check that
/// [`hs256_payload`] makes, and the text is that payload; whether it
/// accepts a token that passes them depends on the clock, and is not
/// stated. (It panics on a system clock set before the Unix epoch.)
#[verifier::external_body]
fn jwt_decode(token: &str, secret: &str) -> (res: Option<String>)
    ensures
        res matches Some(t) ==> hs256_payload(token@, secret@) == Some(t@),
{
    let key = jsonwebtoken::DecodingKey::from_secret(secret.as_bytes());
    let validation = jsonwebtoken::Validation::default();
    let data = jsonwebtoken::decode::<Box<serde_json::value::RawValue>>(token, &key, &validation);
    data.ok().map(|d| d.claims.get().to_string())
}

/// chrono's `Utc::now().timestamp()`, cast to `usize`: the clock's seconds
/// since the Unix epoch. Nothing is stated of it. (chrono panics on a
/// system clock set before the Unix epoch.)
#[verifier::external_body]
pub(crate) fn now_timestamp() -> usize {
    chrono::Utc::now().timestamp() as usize
}

/// uuid's `Uuid::new_v4().to_string()`: a random identifier in its
/// hyphenated form of 36 characters.
#[verifier::external_body]
pub(crate) fn new_token_id() -> (res: String)
    ensures
        res@.len() == 36,
{
    uuid::Uuid::new_v4().to_string()
}

/// Seconds a token lives: `exp_value` minutes or hours (as `usize`).
pub open spec fn lifetime_secs(exp_value: u64, is_minutes: bool) -> int {
    (exp_value as usize) * (if is_minutes {
        60int
    } else {
        3600int
    })
}

/// Whether a token issued at `now`, living `exp_value` minutes or hours,
/// has an expiry that fits in a `usize`.
pub open spec fn lifetime_fits(exp_value: u64, is_minutes: bool, now: usize) -> bool {
    &&& lifetime_secs(exp_value, is_minutes) <= usize::MAX
    &&& now + lifetime_secs(exp_value, is_minutes) <= usize::MAX
}

/// The claims text of a token issued to `username` with `role`, of type
/// `token_type`, at `now` with identifier `jti`, living `exp_value` minutes
/// or hours.
pub open spec fn issued_text(
    username: Seq<char>,
    role: UserRole,
    token_type: Seq<char>,
    exp_value: u64,
    is_minutes: bool,
    now: usize,
    jti: Seq<char>,
) -> Seq<char> {
    claims_text(
        username,
        role_name_spec(role),
        token_type,
        jti,
        now as nat,
        (now + lifetime_secs(exp_value, is_minutes)) as nat,
    )
}

/// Whether `c` are the claims of a token issued to `username` with `role`,
/// of type `token_type`, living `exp_value` minutes or hours.
pub open spec fn issued_claims(
    c: &JwtClaims,
    username: Seq<char>,
    role: UserRole,
    token_type: Seq<char>,
    exp_value: u64,
    is_minutes: bool,
) -> bool {
    &&& c.sub@ == username
    &&& c.role@ == role_name_spec(role)
    &&& c.token_type@ == token_type
    &&& c.exp == c.iat + lifetime_secs(exp_value, is_minutes)
    &&& c.jti@.len() == 36
}

/// The claims of a token issued at `now` with identifier `jti`.
pub fn token_claims(
    username: &str,
    role: &UserRole,
    token_type: &str,
    exp_value: u64,
    is_minutes: bool,
    now: usize,
    jti: String,
) -> (res: JwtClaims)
    requires
        now + lifetime_secs(exp_value, is_minutes) <= usize::MAX,
    ensures
        res.sub@ == username@,
        res.role@ == role_name_spec(*role),
        res.token_type@ == token_type@,
        res.jti@ == jti@,
        res.iat == now,
        res.exp == now + lifetime_secs(exp_value, is_minutes),
        claims_json_spec(&res) == issued_text(
            username@,
            *role,
            token_type@,
            exp_value,
            is_minutes,
            now,
            jti@,
        ),
{
    let factor: usize = if is_minutes { 60 } else { 3600 };
    let exp = now + exp_value as usize * factor;
    JwtClaims {
        sub: owned(username),
        role: owned(role.name()),
        token_type: owned(token_type),
        jti,
        iat: now,
        exp,
    }
}

/// The refusal given when a token cannot be made.
pub open spec fn token_failure_error() -> ErrorView {
    ErrorView::Internal("falha ao gerar token"@)
}

/// The outcome of signing, from what jsonwebtoken's `encode` gave.
pub fn signing_outcome(signed: Option<String>) -> (res: Result<String, ApiError>)
    ensures
        match signed {
            Some(t) => res matches Ok(x) && x@ == t@,
            None => res matches Err(e) && e@ == token_failure_error(),
        },
{
    match signed {
        Some(t) => Ok(t),
        None => Err(ApiError::Internal(owned("falha ao gerar token"))),
    }
}

/// Signs claims with the configured secret. Signing claims does not fail,
/// and the token's payload checks back to the claims text.
pub fn sign_claims(config: &AppConfig, claims: &JwtClaims) -> (res: Result<String, ApiError>)
    ensures
        res matches Ok(t) && t@ == hs256_token(claims_json_spec(claims), config.jwt_secret@)
            && hs256_payload(t@, config.jwt_secret@) == Some(claims_json_spec(claims)),
{
    let text = claims_json(claims);
    proof {
        assert(is_claims_text(text@));
    }
    signing_outcome(jwt_encode(text.as_str(), config.jwt_secret.as_str()))
}

/// Issues a token of type `token_type` to `username` with `role`, living
/// `exp_value` minutes (or hours), stamped `now` with identifier `jti`.
/// Succeeds exactly where the expiry fits in a `usize`; otherwise fails
/// with an internal error.
pub fn issue_token_at(
    config: &AppConfig,
    username: &str,
    role: &UserRole,
    token_type: &str,
    exp_value: u64,
    is_minutes: bool,
    now: usize,
    jti: String,
) -> (res: Result<String, ApiError>)
    ensures
        res is Ok <==> lifetime_fits(exp_value, is_minutes, now),
        res matches Ok(t) ==> t@ == hs256_token(
            issued_text(username@, *role, token_type@, exp_value, is_minutes, now, jti@),
            config.jwt_secret@,
        ) && hs256_payload(t@, config.jwt_secret@) == Some(
            issued_text(username@, *role, token_type@, exp_value, is_minutes, now, jti@),
        ),
        res matches Err(e) ==> e@ == token_failure_error(),
{
    let factor: usize = if is_minutes { 60 } else { 3600 };
    let lifetime = match (exp_value as usize).checked_mul(factor) {
        Some(l) => l,
        None => {
            return Err(ApiError::Internal(owned("falha ao gerar token")));
        },
    };
    if now.checked_add(lifetime).is_none() {
        return Err(ApiError::Internal(owned("falha ao gerar token")));
    }
    let claims = token_claims(username, role, token_type, exp_value, is_minutes, now, jti);
    sign_claims(config, &claims)
}

/// Whether `token` was issued to `username` with `role`, of type
/// `token_type`, living `exp_value` minutes or hours, signed with `secret`,
/// at some time with some identifier of 36 characters; and checks back to
/// its claims text under that secret.
pub open spec fn issued_token(
    token: Seq<char>,
    secret: Seq<char>,
    username: Seq<char>,
    role: UserRole,
    token_type: Seq<char>,
    exp_value: u64,
    is_minutes: bool,
) -> bool {
    exists|now: usize, jti: Seq<char>|
        jti.len() == 36 && lifetime_fits(exp_value, is_minutes, now) && token == hs256_token(
            #[trigger] issued_text(username, role, token_type, exp_value, is_minutes, now, jti),
            secret,
        ) && hs256_payload(token, secret) == Some(
            issued_text(username, role, token_type, exp_value, is_minutes, now, jti),
        )
}

/// Issues a token of type `token_type` to `username` with `role`, living
/// `exp_value` minutes (or hours), stamped with the clock and a random
/// identifier. Fails with an internal error where the lifetime does not fit
/// in a `usize`, or where the clock reading plus the lifetime does not; a
/// token of no lifetime is always issued.
pub fn create_token(
    config: &AppConfig,
    username: &str,
    role: &UserRole,
    token_type: &str,
    exp_value: u64,
    is_minutes: bool,
) -> (res: Result<String, ApiError>)
    ensures
        lifetime_secs(exp_value, is_minutes) > usize::MAX ==> res is Err,
        lifetime_secs(exp_value, is_minutes) == 0 ==> res is Ok,
        res matches Ok(t) ==> issued_token(
            t@,
            config.jwt_secret@,
            username@,
            *role,
            token_type@,
            exp_value,
            is_minutes,
        ),
        res matches Err(e) ==> e@ == token_failure_error(),
{
    let now = now_timestamp();
    let jti = new_token_id();
    issue_token_at(config, username, role, token_type, exp_value, is_minutes, now, jti)
}

/// Issues an access token, living `jwt_access_exp_minutes` minutes, stamped
/// `now` with identifier `jti`. Succeeds exactly where the expiry fits in a
/// `usize`.
pub fn create_jwt_at(config: &AppConfig, username: &str, role: &UserRole, now: usize, jti: String) -> (res: Result<String, ApiError>)
    ensures
        res is Ok <==> lifetime_fits(config.jwt_access_exp_minutes, true, now),
        res matches Ok(t) ==> t@ == hs256_token(
            issued_text(
                username@,
                *role,
                token_type_name(TokenKind::Access),
                config.jwt_access_exp_minutes,
                true,
                now,
                jti@,
            ),
            config.jwt_secret@,
        ) && hs256_payload(t@, config.jwt_secret@) == Some(
            issued_text(
                username@,
                *role,
                token_type_name(TokenKind::Access),
                config.jwt_access_exp_minutes,
                true,
                now,
                jti@,
            ),
        ),
        res matches Err(e) ==> e@ == token_failure_error(),
{
    proof {
        reveal_strlit("access");
    }
    issue_token_at(config, username, role, ACCESS_TOKEN_CLAIM_TYPE, config.jwt_access_exp_minutes, true, now, jti)
}

/// Issues a refresh token, living `jwt_refresh_exp_hours` hours, stamped
/// `now` with identifier `jti`. Succeeds exactly where the expiry fits in a
/// `usize`.
pub fn create_refresh_jwt_at(config: &AppConfig, username: &str, role: &UserRole, now: usize, jti: String) -> (res: Result<String, ApiError>)
    ensures
        res is Ok <==> lifetime_fits(config.jwt_refresh_exp_hours, false, now),
        res matches Ok(t) ==> t@ == hs256_token(
            issued_text(
                username@,
                *role,
                token_type_name(TokenKind::Refresh),
                config.jwt_refresh_exp_hours,
                false,
                now,
                jti@,
            ),
            config.jwt_secret@,
        ) && hs256_payload(t@, config.jwt_secret@) == Some(
            issued_text(
                username@,
                *role,
                token_type_name(TokenKind::Refresh),
                config.jwt_refresh_exp_hours,
                false,
                now,
                jti@,
            ),
        ),
        res matches Err(e) ==> e@ == token_failure_error(),
{
    proof {
        reveal_strlit("refresh");
    }
    issue_token_at(config, username, role, REFRESH_TOKEN_CLAIM_TYPE, config.jwt_refresh_exp_hours, false, now, jti)
}

/// Issues an access token, living `jwt_access_exp_minutes` minutes, stamped
/// with the clock and a random identifier.
pub fn create_jwt(config: &AppConfig, username: &str, role: &UserRole) -> (res: Result<
    String,
    ApiError,
>)
    ensures
        lifetime_secs(config.jwt_access_exp_minutes, true) > usize::MAX ==> res is Err,
        lifetime_secs(config.jwt_access_exp_minutes, true) == 0 ==> res is Ok,
        res matches Ok(t) ==> issued_token(
            t@,
            config.jwt_secret@,
            username@,
            *role,
            token_type_name(TokenKind::Access),
            config.jwt_access_exp_minutes,
            true,
        ),
        res matches Err(e) ==> e@ == token_failure_error(),
{
    proof {
        reveal_strlit("access");
    }
    create_token(config, username, role, ACCESS_TOKEN_CLAIM_TYPE, config.jwt_access_exp_minutes, true)
}

/// Issues a refresh token, living `jwt_refresh_exp_hours` hours, stamped
/// with the clock and a random identifier.
pub fn create_refresh_jwt(config: &AppConfig, username: &str, role: &UserRole) -> (res: Result<
    String,
    ApiError,
>)
    ensures
        lifetime_secs(config.jwt_refresh_exp_hours, false) > usize::MAX ==> res is Err,
        lifetime_secs(config.jwt_refresh_exp_hours, false) == 0 ==> res is Ok,
        res matches Ok(t) ==> issued_token(
            t@,
            config.jwt_secret@,
            username@,
            *role,
            token_type_name(TokenKind::Refresh),
            config.jwt_refresh_exp_hours,
            false,
        ),
        res matches Err(e) ==> e@ == token_failure_error(),
{
    proof {
        reveal_strlit("refresh");
    }
    create_token(config, username, role, REFRESH_TOKEN_CLAIM_TYPE, config.jwt_refresh_exp_hours, false)
}

} // verus!

verus! {

/// The refusal given to a token that does not verify (bad signature,
/// expired, unreadable claims).
pub open spec fn invalid_token_error(kind: TokenKind) -> ErrorView {
    match kind {
        TokenKind::Access => ErrorView::Unauthorized("token invalido ou expirado"@),
        TokenKind::Refresh => ErrorView::Unauthorized("refresh token invalido ou expirado"@),
    }
}

/// The refusal given to a valid token of the other kind.
pub open spec fn wrong_kind_error(kind: TokenKind) -> ErrorView {
    match kind {
        TokenKind::Access => ErrorView::Unauthorized("token de acesso invalido"@),
        TokenKind::Refresh => ErrorView::Unauthorized("refresh token invalido"@),
    }
}

fn invalid_token(kind: TokenKind) -> (e: ApiError)
    ensures
        e@ == invalid_token_error(kind),
{
    match kind {
        TokenKind::Access => ApiError::Unauthorized(owned("token invalido ou expirado")),
        TokenKind::Refresh => ApiError::Unauthorized(owned("refresh token invalido ou expirado")),
    }
}

/// The outcome of checking a token, from what jsonwebtoken's `decode` gave:
/// the verified claims text, or the refusal of a token that does not pass.
pub fn token_check_outcome(kind: TokenKind, decoded: Option<String>) -> (res: Result<
    String,
    ApiError,
>)
    ensures
        match decoded {
            Some(t) => res matches Ok(x) && x@ == t@,
            None => res matches Err(e) && e@ == invalid_token_error(kind),
        },
{
    match decoded {
        Some(text) => Ok(text),
        None => Err(invalid_token(kind)),
    }
}

/// Checks a token's signature and expiry with the configured secret and
/// gives its claims as JSON text: a token it passes checks under the
/// configured secret, and the text is its payload. A token that does not
/// pass is refused with [`invalid_token_error`]; whether a token that
/// checks is still unexpired depends on the clock.
pub fn verify_token(config: &AppConfig, token: &str, kind: TokenKind) -> (res: Result<
    String,
    ApiError,
>)
    ensures
        res matches Ok(t) ==> hs256_payload(token@, config.jwt_secret@) == Some(t@),
        res matches Err(e) ==> e@ == invalid_token_error(kind),
{
    token_check_outcome(kind, jwt_decode(token, config.jwt_secret.as_str()))
}

/// Accepts the claims read from a verified token when they are of the
/// expected kind. `parsed` is `None` where the claims text did not read as
/// claims, which is refused like a token that does not verify.
pub fn accept_claims(kind: TokenKind, parsed: Option<JwtClaims>) -> (res: Result<
    JwtClaims,
    ApiError,
>)
    ensures
        match parsed {
            None => res matches Err(e) && e@ == invalid_token_error(kind),
            Some(c) => if c.token_type@ == token_type_name(kind) {
                res matches Ok(r) && r == c
            } else {
                res matches Err(e) && e@ == wrong_kind_error(kind)
            },
        },
{
    match parsed {
        None => Err(invalid_token(kind)),
        Some(c) => {
            let expected = match kind {
                TokenKind::Access => ACCESS_TOKEN_CLAIM_TYPE,
                TokenKind::Refresh => REFRESH_TOKEN_CLAIM_TYPE,
            };
            proof {
                reveal_strlit("access");
                reveal_strlit("refresh");
            }
            if text_eq(c.token_type.as_str(), expected) {
                Ok(c)
            } else {
                match kind {
                    TokenKind::Access => Err(
                        ApiError::Unauthorized(owned("token de acesso invalido")),
                    ),
                    TokenKind::Refresh => Err(
                        ApiError::Unauthorized(owned("refresh token invalido")),
                    ),
                }
            }
        },
    }
}

/// The user that accepted access claims name: the subject, with the role
/// its role claim names.
pub fn authenticated_user_from_claims(claims: JwtClaims) -> (res: Result<
    AuthenticatedUser,
    ApiError,
>)
    ensures
        match role_result(crate::text::unicode_lowercase(trim_ws(claims.role@))) {
            Ok(r) => res matches Ok(u) && u.username@ == claims.sub@ && u.role == r,
            Err(e) => res matches Err(x) && x@ == e,
        },
        is_ascii_text(trim_ws(claims.role@)) ==> match role_result(
            ascii_lowercase(trim_ws(claims.role@)),
        ) {
            Ok(r) => res matches Ok(u) && u.username@ == claims.sub@ && u.role == r,
            Err(e) => res matches Err(x) && x@ == e,
        },
{
    let role = parse_user_role(claims.role.as_str())?;
    Ok(AuthenticatedUser { username: claims.sub, role })
}

/// A token issued with a secret, once the check passes it under that same
/// secret, yields the claims text it was issued with: the subject, role
/// name, token type and lifetime it was issued for, stamped at some time
/// with an identifier of 36 characters.
pub proof fn lemma_checked_issued_token(
    token: Seq<char>,
    secret: Seq<char>,
    username: Seq<char>,
    role: UserRole,
    token_type: Seq<char>,
    exp_value: u64,
    is_minutes: bool,
    checked: Seq<char>,
)
    requires
        issued_token(token, secret, username, role, token_type, exp_value, is_minutes),
        hs256_payload(token, secret) == Some(checked),
    ensures
        exists|now: usize, jti: Seq<char>|
            jti.len() == 36 && lifetime_fits(exp_value, is_minutes, now) && checked
                == #[trigger] issued_text(username, role, token_type, exp_value, is_minutes, now, jti),
{
    let (now, jti) = choose|now: usize, jti: Seq<char>|
        jti.len() == 36 && lifetime_fits(exp_value, is_minutes, now) && token == hs256_token(
            #[trigger] issued_text(username, role, token_type, exp_value, is_minutes, now, jti),
            secret,
        ) && hs256_payload(token, secret) == Some(
            issued_text(username, role, token_type, exp_value, is_minutes, now, jti),
        );
    assert(checked == issued_text(username, role, token_type, exp_value, is_minutes, now, jti));
}

/// No claims are accepted as both an access and a refresh token.
pub proof fn lemma_token_kinds_exclusive(c: &JwtClaims)
    ensures
        !(c.token_type@ == token_type_name(TokenKind::Access) && c.token_type@ == token_type_name(
            TokenKind::Refresh,
        )),
{
    reveal_strlit("access");
    reveal_strlit("refresh");
    assert("access"@.len() != "refresh"@.len());
}

/// The claims of an issued token are accepted for its kind, refused for the
/// other kind, and their role claim reads back as the role it was issued
/// with.
pub proof fn lemma_issued_claims_read_back(
    c: &JwtClaims,
    username: Seq<char>,
    role: UserRole,
    kind: TokenKind,
    exp_value: u64,
    is_minutes: bool,
)
    requires
        issued_claims(c, username, role, token_type_name(kind), exp_value, is_minutes),
    ensures
        c.token_type@ == token_type_name(kind),
        c.token_type@ != token_type_name(
            match kind {
                TokenKind::Access => TokenKind::Refresh,
                TokenKind::Refresh => TokenKind::Access,
            },
        ),
        c.sub@ == username,
        is_ascii_text(trim_ws(c.role@)),
        role_result(ascii_lowercase(trim_ws(c.role@))) == Ok::<UserRole, ErrorView>(role),
{
    lemma_token_kinds_exclusive(c);
    lemma_role_name_reads_back(role);
}

} // verus!

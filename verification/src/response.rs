use vstd::prelude::*;

use crate::config::{ConfigError, ConfigErrorView};
use crate::error::{ApiError, ErrorView};
use crate::text::{append_decimal, decimal, owned};

verus! {

/// The envelope of a successful answer.
#[derive(Debug)]
pub struct ApiResponse<T> {
    pub success: bool,
    pub request_id: String,
    pub message: String,
    pub data: T,
}

/// Where a page of a listing lies.
#[derive(Debug)]
pub struct PaginationMeta {
    pub page: u64,
    pub limit: u64,
    pub total_items: u64,
    pub total_pages: u64,
}

/// The envelope of a page of a listing.
#[derive(Debug)]
pub struct ApiPaginatedResponse<T> {
    pub success: bool,
    pub request_id: String,
    pub message: String,
    pub data: Vec<T>,
    pub pagination: PaginationMeta,
}

/// The envelope of an error answer.
#[derive(Debug)]
pub struct ErrorBody {
    pub success: bool,
    pub request_id: String,
    pub message: String,
    pub error_type: String,
}

/// std's clock reading type.
#[verifier::external_type_specification]
#[verifier::external_body]
pub struct ExSystemTime(std::time::SystemTime);

/// std's `SystemTime::now()`: the clock's reading. Nothing is stated of it.
#[verifier::external_body]
fn system_now() -> std::time::SystemTime {
    std::time::SystemTime::now()
}

/// std's `SystemTime::duration_since(UNIX_EPOCH)`: the time elapsed since
/// the Unix epoch, `None` for a reading before it. Nothing is stated of it.
#[verifier::external_body]
fn since_unix_epoch(t: &std::time::SystemTime) -> Option<std::time::Duration> {
    t.duration_since(std::time::UNIX_EPOCH).ok()
}

/// std's `Duration::as_nanos`: the whole nanoseconds of a duration. Nothing
/// is stated of it, as `Duration` is opaque here.
#[verifier::external_body]
fn duration_nanos(d: &std::time::Duration) -> u128 {
    d.as_nanos()
}

/// The clock as nanoseconds since the Unix epoch, 0 for a clock set before
/// it.
fn unix_nanos() -> u128 {
    match since_unix_epoch(&system_now()) {
        Some(d) => duration_nanos(&d),
        None => 0,
    }
}

/// The identifier of a request stamped at `nanos`: `req-` and the decimal
/// number.
pub open spec fn request_id_text(nanos: nat) -> Seq<char> {
    "req-"@ + decimal(nanos)
}

/// The identifier of a request stamped at `nanos`.
pub fn request_id_at(nanos: u128) -> (res: String)
    ensures
        res@ == request_id_text(nanos as nat),
{
    let mut s = owned("req-");
    append_decimal(&mut s, nanos);
    s
}

/// A fresh request identifier, stamped with the clock.
pub fn request_id() -> (res: String)
    ensures
        exists|n: u128| res@ == request_id_text(n as nat),
{
    request_id_at(unix_nanos())
}

/// A successful answer carrying `data`.
pub fn ok<T>(message: &str, data: T) -> (res: ApiResponse<T>)
    ensures
        res.success,
        res.message@ == message@,
        res.data == data,
        exists|n: u128| res.request_id@ == request_id_text(n as nat),
{
    ApiResponse { success: true, request_id: request_id(), message: owned(message), data }
}

/// A successful answer carrying one page of a listing.
pub fn paginated<T>(message: &str, data: Vec<T>, pagination: PaginationMeta) -> (res:
    ApiPaginatedResponse<T>)
    ensures
        res.success,
        res.message@ == message@,
        res.data@ == data@,
        res.pagination == pagination,
        exists|n: u128| res.request_id@ == request_id_text(n as nat),
{
    ApiPaginatedResponse {
        success: true,
        request_id: request_id(),
        message: owned(message),
        data,
        pagination,
    }
}

/// The text an error is shown with.
pub open spec fn error_message(e: ErrorView) -> Seq<char> {
    match e {
        ErrorView::BadRequest(m) => "requisicao invalida: "@ + m,
        ErrorView::NotFound(m) => "recurso nao encontrado: "@ + m,
        ErrorView::Validation(m) => "erro de validacao: "@ + m,
        ErrorView::Unauthorized(m) => "nao autorizado: "@ + m,
        ErrorView::Database(_) => "erro de banco de dados"@,
        ErrorView::Internal(m) => "erro interno: "@ + m,
    }
}

/// The `errorType` of each kind of error.
pub open spec fn error_type_name(e: ErrorView) -> Seq<char> {
    match e {
        ErrorView::BadRequest(_) => "bad_request"@,
        ErrorView::NotFound(_) => "not_found"@,
        ErrorView::Validation(_) => "validation_error"@,
        ErrorView::Unauthorized(_) => "unauthorized"@,
        ErrorView::Database(_) => "database_error"@,
        ErrorView::Internal(_) => "internal_error"@,
    }
}

impl ApiError {
    /// The text the error is shown with.
    pub fn message(&self) -> (res: String)
        ensures
            res@ == error_message(self@),
    {
        let (prefix, detail) = match self {
            ApiError::BadRequest(m) => ("requisicao invalida: ", m),
            ApiError::NotFound(m) => ("recurso nao encontrado: ", m),
            ApiError::Validation(m) => ("erro de validacao: ", m),
            ApiError::Unauthorized(m) => ("nao autorizado: ", m),
            ApiError::Database(_) => {
                return owned("erro de banco de dados");
            },
            ApiError::Internal(m) => ("erro interno: ", m),
        };
        let mut s = owned(prefix);
        s.append(detail.as_str());
        s
    }

    /// The `errorType` of the error.
    pub fn error_type(&self) -> (res: &'static str)
        ensures
            res@ == error_type_name(self@),
    {
        match self {
            ApiError::BadRequest(_) => "bad_request",
            ApiError::NotFound(_) => "not_found",
            ApiError::Validation(_) => "validation_error",
            ApiError::Unauthorized(_) => "unauthorized",
            ApiError::Database(_) => "database_error",
            ApiError::Internal(_) => "internal_error",
        }
    }

    /// The body of the error answer.
    pub fn error_body(&self) -> (res: ErrorBody)
        ensures
            !res.success,
            res.message@ == error_message(self@),
            res.error_type@ == error_type_name(self@),
            exists|n: u128| res.request_id@ == request_id_text(n as nat),
    {
        ErrorBody {
            success: false,
            request_id: request_id(),
            message: self.message(),
            error_type: owned(self.error_type()),
        }
    }
}

/// The text a configuration error is shown with.
pub open spec fn config_error_message(e: ConfigErrorView) -> Seq<char> {
    match e {
        ConfigErrorView::MissingEnvVar(k) => "variavel de ambiente obrigatoria ausente: "@ + k,
        ConfigErrorView::InvalidPort(v) => "PORT invalida: "@ + v,
        ConfigErrorView::InvalidEnvValue(k) => "valor invalido para variavel de ambiente: "@ + k,
    }
}

impl ConfigError {
    /// The text the error is shown with.
    pub fn message(&self) -> (res: String)
        ensures
            res@ == config_error_message(self@),
    {
        let (prefix, detail) = match self {
            ConfigError::MissingEnvVar(k) => ("variavel de ambiente obrigatoria ausente: ", k),
            ConfigError::InvalidPort(v) => ("PORT invalida: ", v),
            ConfigError::InvalidEnvValue(k) => ("valor invalido para variavel de ambiente: ", k),
        };
        let mut s = owned(prefix);
        s.append(detail.as_str());
        s
    }
}

} // verus!

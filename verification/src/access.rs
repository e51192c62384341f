use vstd::prelude::*;

use crate::config::AppConfig;
use crate::error::{ApiError, ErrorView};
use crate::roles::UserRole;
use crate::text::{owned, text_eq};

verus! {

/// The user a request was authenticated as.
#[derive(Debug)]
pub struct AuthenticatedUser {
    pub username: String,
    pub role: UserRole,
}

/// The refusal given to a user whose role may not use an endpoint.
pub open spec fn forbidden_error() -> ErrorView {
    ErrorView::Unauthorized("voce nao tem permissao para acessar este recurso"@)
}

/// Lets the request through when the user's role is among `allowed`.
pub fn require_roles(user: &AuthenticatedUser, allowed: &[UserRole]) -> (res: Result<(), ApiError>)
    ensures
        res is Ok <==> allowed@.contains(user.role),
        res matches Err(e) ==> e@ == forbidden_error(),
{
    let mut i: usize = 0;
    while i < allowed.len()
        invariant
            i <= allowed@.len(),
            forall|j: int| 0 <= j < i ==> allowed@[j] != user.role,
        decreases allowed@.len() - i,
    {
        if allowed[i] == user.role {
            return Ok(());
        }
        i = i + 1;
    }
    Err(ApiError::Unauthorized(owned("voce nao tem permissao para acessar este recurso")))
}

/// The endpoints whose use depends on the caller's role.
#[derive(Clone, Copy, PartialEq, Eq, Structural, Debug)]
pub enum Endpoint {
    CreateGmud,
    ListGmuds,
    GetGmud,
    UpdateGmud,
    DeleteGmud,
    CreateUser,
    ListUsers,
}

/// The roles each endpoint admits, in the order the handlers list them.
pub open spec fn endpoint_roles(endpoint: Endpoint) -> Seq<UserRole> {
    match endpoint {
        Endpoint::CreateGmud => seq![UserRole::Admin, UserRole::Developer],
        Endpoint::ListGmuds => seq![UserRole::Admin, UserRole::Developer, UserRole::Approver],
        Endpoint::GetGmud => seq![UserRole::Admin, UserRole::Developer, UserRole::Approver],
        Endpoint::UpdateGmud => seq![UserRole::Admin, UserRole::Developer],
        Endpoint::DeleteGmud => seq![UserRole::Admin],
        Endpoint::CreateUser => seq![UserRole::Admin],
        Endpoint::ListUsers => seq![UserRole::Admin, UserRole::Approver],
    }
}

/// Whether a role may use an endpoint: reading changes is open to every
/// role, writing them to admins and developers, deleting them to admins;
/// creating users is for admins, listing them for admins and approvers.
pub open spec fn may_use(role: UserRole, endpoint: Endpoint) -> bool {
    match endpoint {
        Endpoint::ListGmuds | Endpoint::GetGmud => true,
        Endpoint::CreateGmud | Endpoint::UpdateGmud => role == UserRole::Admin || role
            == UserRole::Developer,
        Endpoint::DeleteGmud | Endpoint::CreateUser => role == UserRole::Admin,
        Endpoint::ListUsers => role == UserRole::Admin || role == UserRole::Approver,
    }
}

/// The roles an endpoint admits.
pub fn allowed_roles(endpoint: Endpoint) -> (res: Vec<UserRole>)
    ensures
        res@ == endpoint_roles(endpoint),
{
    match endpoint {
        Endpoint::CreateGmud => vec![UserRole::Admin, UserRole::Developer],
        Endpoint::ListGmuds => vec![UserRole::Admin, UserRole::Developer, UserRole::Approver],
        Endpoint::GetGmud => vec![UserRole::Admin, UserRole::Developer, UserRole::Approver],
        Endpoint::UpdateGmud => vec![UserRole::Admin, UserRole::Developer],
        Endpoint::DeleteGmud => vec![UserRole::Admin],
        Endpoint::CreateUser => vec![UserRole::Admin],
        Endpoint::ListUsers => vec![UserRole::Admin, UserRole::Approver],
    }
}

/// The HTTP status of an endpoint's success: 201 for creations, 200 otherwise.
pub open spec fn success_status_spec(endpoint: Endpoint) -> u16 {
    match endpoint {
        Endpoint::CreateGmud | Endpoint::CreateUser => 201,
        _ => 200,
    }
}

/// Only the endpoints that create something answer 201 (Created); every
/// other endpoint answers 200 (OK).
pub proof fn lemma_success_status_created_only(endpoint: Endpoint)
    ensures
        success_status_spec(endpoint) == 201 <==> (endpoint == Endpoint::CreateGmud || endpoint
            == Endpoint::CreateUser),
        !(endpoint == Endpoint::CreateGmud || endpoint == Endpoint::CreateUser) ==> success_status_spec(
            endpoint,
        ) == 200,
{
}

/// The message of an endpoint's success.
pub open spec fn success_message_spec(endpoint: Endpoint) -> Seq<char> {
    match endpoint {
        Endpoint::CreateGmud => "gmud criada com sucesso"@,
        Endpoint::ListGmuds => "gmuds listadas com sucesso"@,
        Endpoint::GetGmud => "gmud encontrada"@,
        Endpoint::UpdateGmud => "gmud atualizada com sucesso"@,
        Endpoint::DeleteGmud => "gmud removida com sucesso"@,
        Endpoint::CreateUser => "usuario criado com sucesso"@,
        Endpoint::ListUsers => "usuarios listados com sucesso"@,
    }
}

impl Endpoint {
    /// The HTTP status of the endpoint's success.
    pub fn success_status(&self) -> (res: u16)
        ensures
            res == success_status_spec(*self),
            res == 201 <==> (*self == Endpoint::CreateGmud || *self == Endpoint::CreateUser),
            !(*self == Endpoint::CreateGmud || *self == Endpoint::CreateUser) ==> res == 200,
    {
        match self {
            Endpoint::CreateGmud | Endpoint::CreateUser => 201,
            _ => 200,
        }
    }

    /// The message of the endpoint's success.
    pub fn success_message(&self) -> (res: &'static str)
        ensures
            res@ == success_message_spec(*self),
    {
        match self {
            Endpoint::CreateGmud => "gmud criada com sucesso",
            Endpoint::ListGmuds => "gmuds listadas com sucesso",
            Endpoint::GetGmud => "gmud encontrada",
            Endpoint::UpdateGmud => "gmud atualizada com sucesso",
            Endpoint::DeleteGmud => "gmud removida com sucesso",
            Endpoint::CreateUser => "usuario criado com sucesso",
            Endpoint::ListUsers => "usuarios listados com sucesso",
        }
    }
}

/// The role check of an endpoint's handler.
pub fn authorize(user: &AuthenticatedUser, endpoint: Endpoint) -> (res: Result<(), ApiError>)
    ensures
        res is Ok <==> may_use(user.role, endpoint),
        res matches Err(e) ==> e@ == forbidden_error(),
{
    let allowed = allowed_roles(endpoint);
    proof {
        lemma_endpoint_roles_match(user.role, endpoint);
    }
    require_roles(user, allowed.as_slice())
}

/// The role lists of the handlers admit exactly the roles that [`may_use`]
/// allows.
pub proof fn lemma_endpoint_roles_match(role: UserRole, endpoint: Endpoint)
    ensures
        endpoint_roles(endpoint).contains(role) <==> may_use(role, endpoint),
{
    let s = endpoint_roles(endpoint);
    if may_use(role, endpoint) {
        if role == UserRole::Admin {
            assert(s[0] == role);
        } else if role == UserRole::Developer {
            assert(s[1] == role);
        } else {
            if endpoint == Endpoint::ListUsers {
                assert(s[1] == role);
            } else {
                assert(s[2] == role);
            }
        }
    }
}

/// Admins may use every endpoint.
pub proof fn lemma_admin_may_use_everything(endpoint: Endpoint)
    ensures
        may_use(UserRole::Admin, endpoint),
{
}

/// Whoever may write changes may also read them, and whoever may delete
/// them may also write them.
pub proof fn lemma_permissions_nest(role: UserRole)
    ensures
        may_use(role, Endpoint::DeleteGmud) ==> may_use(role, Endpoint::UpdateGmud),
        may_use(role, Endpoint::UpdateGmud) ==> may_use(role, Endpoint::GetGmud),
        may_use(role, Endpoint::CreateGmud) == may_use(role, Endpoint::UpdateGmud),
        may_use(role, Endpoint::GetGmud) == may_use(role, Endpoint::ListGmuds),
{
}

/// The refusal given to a login with wrong credentials.
pub open spec fn bad_credentials_error() -> ErrorView {
    ErrorView::Unauthorized("credenciais invalidas"@)
}

/// Checks a login against the credentials of the configuration.
pub fn verify_credentials(config: &AppConfig, username: &str, password: &str) -> (res: Result<
    (),
    ApiError,
>)
    ensures
        res is Ok <==> (username@ == config.auth_username@ && password@ == config.auth_password@),
        res matches Err(e) ==> e@ == bad_credentials_error(),
{
    if text_eq(username, config.auth_username.as_str()) && text_eq(
        password,
        config.auth_password.as_str(),
    ) {
        Ok(())
    } else {
        Err(ApiError::Unauthorized(owned("credenciais invalidas")))
    }
}

} // verus!

use vstd::prelude::*;

use crate::error::{ApiError, ErrorView};
use crate::text::{
    ascii_lowercase, is_ascii_text, text_eq, to_lowercase, trim, trim_end_ws, trim_start_ws, trim_ws,
    unicode_lowercase,
};

verus! {

/// The roles a user can hold.
#[derive(Clone, Copy, PartialEq, Eq, Structural, Debug)]
pub enum UserRole {
    Developer,
    Approver,
    Admin,
}

/// The name under which a role is stored and carried in tokens.
pub open spec fn role_name_spec(role: UserRole) -> Seq<char> {
    match role {
        UserRole::Developer => "developer"@,
        UserRole::Approver => "approver"@,
        UserRole::Admin => "admin"@,
    }
}

/// The role that a normalized (trimmed, lowercase) name designates.
pub open spec fn role_from_text(name: Seq<char>) -> Option<UserRole> {
    if name == "developer"@ {
        Some(UserRole::Developer)
    } else if name == "approver"@ {
        Some(UserRole::Approver)
    } else if name == "admin"@ {
        Some(UserRole::Admin)
    } else {
        None
    }
}

/// The outcome of reading a role from its normalized name.
pub open spec fn role_result(name: Seq<char>) -> Result<UserRole, ErrorView> {
    match role_from_text(name) {
        Some(r) => Ok(r),
        None => Err(ErrorView::Validation("role invalido"@)),
    }
}

/// A result whose error is taken by its view.
pub open spec fn result_view<T>(r: Result<T, ApiError>) -> Result<T, ErrorView> {
    match r {
        Ok(v) => Ok(v),
        Err(e) => Err(e@),
    }
}

impl UserRole {
    /// The stored name of the role.
    pub fn name(&self) -> (res: &'static str)
        ensures
            res@ == role_name_spec(*self),
    {
        match self {
            UserRole::Developer => "developer",
            UserRole::Approver => "approver",
            UserRole::Admin => "admin",
        }
    }
}

/// Reads a role from a name already trimmed and lowercased.
pub fn parse_normalized_role(name: &str) -> (res: Result<UserRole, ApiError>)
    ensures
        result_view(res) == role_result(name@),
{
    if text_eq(name, "developer") {
        Ok(UserRole::Developer)
    } else if text_eq(name, "approver") {
        Ok(UserRole::Approver)
    } else if text_eq(name, "admin") {
        Ok(UserRole::Admin)
    } else {
        Err(ApiError::validation("role invalido"))
    }
}

/// Reads a role from its name, ignoring surrounding whitespace and case.
pub fn parse_user_role(value: &str) -> (res: Result<UserRole, ApiError>)
    ensures
        result_view(res) == role_result(unicode_lowercase(trim_ws(value@))),
        is_ascii_text(trim_ws(value@)) ==> result_view(res) == role_result(
            ascii_lowercase(trim_ws(value@)),
        ),
{
    let trimmed = trim(value);
    let lower = to_lowercase(trimmed);
    parse_normalized_role(lower.as_str())
}

} // verus!

verus! {

/// A role's stored name reads back as that role: the name is ASCII, has no
/// surrounding whitespace and is already lowercase, so [`parse_user_role`]
/// maps it to the role it was written for.
pub proof fn lemma_role_name_reads_back(role: UserRole)
    ensures
        is_ascii_text(trim_ws(role_name_spec(role))),
        trim_ws(role_name_spec(role)) == role_name_spec(role),
        ascii_lowercase(trim_ws(role_name_spec(role))) == role_name_spec(role),
        role_result(ascii_lowercase(trim_ws(role_name_spec(role)))) == Ok::<UserRole, ErrorView>(role),
{
    reveal_strlit("developer");
    reveal_strlit("approver");
    reveal_strlit("admin");
    let s = role_name_spec(role);
    assert(trim_start_ws(s) == s);
    assert(trim_end_ws(s) == s);
    assert(ascii_lowercase(s) =~= s);
    assert("developer"@[0] != "approver"@[0]);
    assert("developer"@ != "admin"@);
    assert("approver"@[1] != "admin"@[1]);
}

} // verus!

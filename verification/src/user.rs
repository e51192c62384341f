use vstd::prelude::*;

use crate::error::{ApiError, ErrorView};
use crate::ids::{id_text, id_to_text, ObjectIdBytes};
use crate::roles::UserRole;
use crate::text::owned;
use crate::validation::Violations;

verus! {

/// A stored user.
#[derive(Debug)]
pub struct UserModel {
    pub id: Option<ObjectIdBytes>,
    pub name: String,
    pub role: UserRole,
    pub password_hash: Option<String>,
}

/// The body of a request that creates a user.
#[derive(Debug)]
pub struct CreateUserDto {
    pub name: String,
    pub role: UserRole,
    pub password: String,
}

/// A user as the API shows it.
#[derive(Debug)]
pub struct UserResponseDto {
    pub id: String,
    pub name: String,
    pub role: UserRole,
}

/// What bcrypt's `verify` gives for a password and a stored hash: whether
/// they match, or `None` where the hash cannot be read.
pub uninterp spec fn bcrypt_check(password: Seq<char>, hash: Seq<char>) -> Option<bool>;

/// bcrypt's `verify`, its error taken as `None`.
#[verifier::external_body]
fn bcrypt_verify(password: &str, hash: &str) -> (res: Option<bool>)
    ensures
        res == bcrypt_check(password@, hash@),
{
    bcrypt::verify(password, hash).ok()
}

/// The form of the hashes bcrypt's `hash` writes at its default cost:
/// `$2b$12$` followed by 22 characters of salt and 31 of digest.
pub open spec fn is_bcrypt_hash_form(h: Seq<char>) -> bool {
    &&& h.len() == 60
    &&& h.take(7) == "$2b$12$"@
}

/// bcrypt's `hash` at its default cost, with a random salt; its error (the
/// system's random source failing) taken as `None`. A hash it returns has
/// the form `$2b$12$` + salt + digest, and verifies the password it was
/// made from (`verify` reads the cost and salt back from the hash and
/// recomputes the same digest); `verify` reads such a hash for any
/// password.
#[verifier::external_body]
fn bcrypt_hash(password: &str) -> (res: Option<String>)
    ensures
        res matches Some(h) ==> bcrypt_check(password@, h@) == Some(true),
        res matches Some(h) ==> is_bcrypt_hash_form(h@),
        res matches Some(h) ==> forall|p: Seq<char>| #[trigger] bcrypt_check(p, h@) is Some,
{
    bcrypt::hash(password, bcrypt::DEFAULT_COST).ok()
}

/// The outcome of a password check, from what bcrypt's `verify` gave.
pub fn password_check_outcome(checked: Option<bool>) -> (res: Result<bool, ApiError>)
    ensures
        match checked {
            Some(b) => res matches Ok(x) && x == b,
            None => res matches Err(e) && e@ == ErrorView::Internal("falha ao validar senha"@),
        },
{
    match checked {
        Some(b) => Ok(b),
        None => Err(ApiError::Internal(owned("falha ao validar senha"))),
    }
}

/// Whether `password` matches the stored bcrypt `password_hash`.
pub fn verify_user_password(password: &str, password_hash: &str) -> (res: Result<bool, ApiError>)
    ensures
        match bcrypt_check(password@, password_hash@) {
            Some(b) => res matches Ok(x) && x == b,
            None => res matches Err(e) && e@ == ErrorView::Internal("falha ao validar senha"@),
        },
{
    password_check_outcome(bcrypt_verify(password, password_hash))
}

/// The length rules of a new user: a name of 3 to 120 characters and a
/// password of 6 to 128.
pub open spec fn create_user_valid(input: &CreateUserDto) -> bool {
    &&& 3 <= input.name@.len() <= 120
    &&& 6 <= input.password@.len() <= 128
}

/// Each length rule of a new user bounds its own field: a new user is
/// valid exactly when its name has 3 to 120 characters and its password 6
/// to 128.
pub proof fn lemma_create_user_rules(input: &CreateUserDto)
    ensures
        create_user_valid(input) ==> 3 <= input.name@.len() <= 120,
        create_user_valid(input) ==> 6 <= input.password@.len() <= 128,
        (3 <= input.name@.len() <= 120 && 6 <= input.password@.len() <= 128) ==> create_user_valid(
            input,
        ),
{
}

/// Checks the length rules of a new user.
pub fn validate_create_user(input: &CreateUserDto) -> (res: Result<(), ApiError>)
    ensures
        res is Ok <==> create_user_valid(input),
        res is Ok <==> (3 <= input.name@.len() <= 120 && 6 <= input.password@.len() <= 128),
        res matches Err(e) ==> e is Validation,
{
    let mut v = Violations::new();
    v.check_length("name", input.name.as_str(), 3, 120);
    v.check_length("password", input.password.as_str(), 6, 128);
    v.finish()
}

/// The record of a new user, before it is stored: the input's name and role
/// and a bcrypt hash of its password (never the password itself, for a
/// password of any length but the hash's 60 characters), no id yet. Fails with a validation
/// error when a length rule fails, with an internal error when hashing
/// fails.
pub fn new_user_model(input: CreateUserDto) -> (res: Result<UserModel, ApiError>)
    ensures
        !create_user_valid(&input) ==> (res matches Err(e) && e is Validation),
        create_user_valid(&input) ==> match res {
            Ok(m) => {
                &&& m.id is None
                &&& m.name@ == input.name@
                &&& m.role == input.role
                &&& m.password_hash matches Some(h) && bcrypt_check(input.password@, h@) == Some(
                    true,
                ) && is_bcrypt_hash_form(h@) && (input.password@.len() != 60 ==> h@
                    != input.password@) && (forall|p: Seq<char>| #[trigger] bcrypt_check(p, h@) is Some)
            },
            Err(e) => e@ == ErrorView::Internal("falha ao criptografar senha"@),
        },
{
    validate_create_user(&input)?;
    let hash = match bcrypt_hash(input.password.as_str()) {
        Some(h) => h,
        None => {
            return Err(ApiError::Internal(owned("falha ao criptografar senha")));
        },
    };
    Ok(UserModel { id: None, name: input.name, role: input.role, password_hash: Some(hash) })
}

impl UserResponseDto {
    /// How the API shows a stored user: its id as lowercase hexadecimal
    /// (empty when it has none), its name and role.
    pub fn from_model(user: &UserModel) -> (res: UserResponseDto)
        ensures
            res.id@ == id_text(user.id),
            res.name@ == user.name@,
            res.role == user.role,
    {
        UserResponseDto { id: id_to_text(user.id), name: user.name.clone(), role: user.role }
    }
}

/// The listing of stored users, in the order given.
pub fn users_response(users: &Vec<UserModel>) -> (res: Vec<UserResponseDto>)
    ensures
        res@.len() == users@.len(),
        forall|i: int|
            0 <= i < users@.len() ==> {
                &&& (#[trigger] res@[i]).id@ == id_text(users@[i].id)
                &&& res@[i].name@ == users@[i].name@
                &&& res@[i].role == users@[i].role
            },
{
    let mut out: Vec<UserResponseDto> = Vec::new();
    let mut i: usize = 0;
    while i < users.len()
        invariant
            i <= users@.len(),
            out@.len() == i,
            forall|j: int|
                0 <= j < i ==> {
                    &&& (#[trigger] out@[j]).id@ == id_text(users@[j].id)
                    &&& out@[j].name@ == users@[j].name@
                    &&& out@[j].role == users@[j].role
                },
        decreases users@.len() - i,
    {
        out.push(UserResponseDto::from_model(&users[i]));
        i = i + 1;
    }
    out
}

} // verus!

use vstd::prelude::*;

pub mod error;
pub mod text;
pub mod config;
pub mod roles;
pub mod access;
pub mod ids;
pub mod validation;
pub mod user;
pub mod json;
pub mod tokens;
pub mod session;
pub mod gmud;
pub mod response;
pub mod cors;

verus! {

} // verus!

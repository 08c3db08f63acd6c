//! What a client sends to register and to sign in.

use vstd::prelude::*;

verus! {

/// A request to register an account.
#[derive(Debug)]
pub struct RegisterRequest {
    pub name: String,
    pub email: String,
    pub password: String,
}

/// A request to sign in.
#[derive(Debug)]
pub struct LoginRequest {
    pub email: String,
    pub password: String,
}

} // verus!

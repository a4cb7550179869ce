//! Where the bearer of a request's credential comes from.

use vstd::prelude::*;

verus! {

/// A source of tokens: the token itself and the scheme it is sent under.
pub trait TokenManager {
    fn get_token(&self) -> String;

    fn get_token_type(&self) -> String;
}

/// The reply of the identity service to a request for a token.
#[derive(Debug)]
pub struct ReplitTokenManagerResponse {
    pub token: String,
    pub timeout: i64,
}

/// Hands out the identity token that it was given, as a bearer token.
#[derive(Debug)]
pub struct ReplitIdentityTokenManager {
    pub token: String,
}

/// Hands out the long-lived L402 token that it was given.
#[derive(Debug)]
pub struct L402TokenManager {
    pub token: String,
}

impl ReplitIdentityTokenManager {
    /// A manager of the token that the identity service replied with.
    pub fn from_response(response: ReplitTokenManagerResponse) -> (manager: ReplitIdentityTokenManager)
        ensures
            manager.token@ == response.token@,
    {
        ReplitIdentityTokenManager { token: response.token }
    }
}

impl TokenManager for ReplitIdentityTokenManager {
    fn get_token(&self) -> (token: String)
        ensures
            token@ == self.token@,
    {
        self.token.clone()
    }

    fn get_token_type(&self) -> (scheme: String)
        ensures
            scheme@ == "Bearer"@,
    {
        String::from_str("Bearer")
    }
}

impl TokenManager for L402TokenManager {
    fn get_token(&self) -> (token: String)
        ensures
            token@ == self.token@,
    {
        self.token.clone()
    }

    fn get_token_type(&self) -> (scheme: String)
        ensures
            scheme@ == "L402"@,
    {
        String::from_str("L402")
    }
}

} // verus!

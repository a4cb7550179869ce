//! What every model shares: where it is served from, how it proves who asks,
//! and how a reply's status is judged.

use crate::config::Config;
use vstd::prelude::*;

verus! {

/// Why a model's reply was not accepted.
#[derive(Clone, Copy, Debug, PartialEq, Eq, Structural)]
pub enum ResponseError {
    /// The service found the request wrong (status 400).
    InvalidRequest,
    /// The service answered with any other status than 200.
    InvalidResponse,
}

/// How a reply's status is judged: 400 is an invalid request, any other
/// status than 200 an invalid response.
pub open spec fn response_check(status: u16) -> Result<(), ResponseError> {
    if status == 400 {
        Err(ResponseError::InvalidRequest)
    } else if status != 200 {
        Err(ResponseError::InvalidResponse)
    } else {
        Ok(())
    }
}

/// Judges the status of a model's reply.
pub fn check_response(status: u16) -> (r: Result<(), ResponseError>)
    ensures
        r == response_check(status),
{
    if status == 400 {
        return Err(ResponseError::InvalidRequest);
    }
    if status != 200 {
        return Err(ResponseError::InvalidResponse);
    }
    Ok(())
}

/// Judges the status of a model's streamed reply, by the same rule.
pub fn check_streaming_response(status: u16) -> (r: Result<(), ResponseError>)
    ensures
        r == response_check(status),
{
    if status == 200 {
        return Ok(());
    }
    check_response(status)
}

/// The value of an `Authorization` header: the scheme, a space and the
/// token.
pub open spec fn authorization_text(token_type: Seq<char>, token: Seq<char>) -> Seq<char> {
    token_type + " "@ + token
}

/// The value of the `Authorization` header for a token of the given scheme.
pub fn authorization_value(token_type: &str, token: &str) -> (value: String)
    ensures
        value@ == authorization_text(token_type@, token@),
{
    let mut value = String::from_str(token_type);
    value.append(" ");
    value.append(token);
    value
}

/// Who vouches for the client's requests.
#[derive(Clone, Copy, Debug, PartialEq, Eq, Structural)]
pub enum Access {
    /// The hosting platform's identity token, sent as a bearer token.
    Identity,
    /// Payment over Lightning, by the L402 protocol.
    Paid,
}

/// Where a model is served from and who vouches for the requests to it.
#[derive(Debug)]
pub struct ModelSettings {
    pub server_url: String,
    pub access: Access,
}

impl ModelSettings {
    /// The settings of a model: on the hosting platform the platform's
    /// identity vouches and the root address serves; anywhere else requests
    /// are paid for and the paid gateway serves. An address given by the
    /// caller comes first either way.
    pub fn select(on_platform: bool, server_url: Option<&str>, config: &Config) -> (settings: ModelSettings)
        ensures
            settings.access == if on_platform {
                Access::Identity
            } else {
                Access::Paid
            },
            settings.server_url@ == match server_url {
                Some(url) => url@,
                None => if on_platform {
                    config.root_url@
                } else {
                    config.matador_url@
                },
            },
    {
        let access = if on_platform {
            Access::Identity
        } else {
            Access::Paid
        };
        let server_url = match server_url {
            Some(url) => String::from_str(url),
            None => if on_platform {
                config.root_url.clone()
            } else {
                config.matador_url.clone()
            },
        };
        ModelSettings { server_url, access }
    }
}

} // verus!

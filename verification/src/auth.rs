//! Bearer-key access control for the API.

use vstd::prelude::*;
use crate::error::{ApiError, UNAUTHORIZED};
use crate::text::{concat2, owned, str_eq};

verus! {

/// Paths open without a key, each exactly (not its neighbours): the liveness
/// probe, the server's health endpoint and the Obscura MCP endpoint, the last
/// two with or without the `/v1` prefix under which the API is mounted.
pub open spec fn public_path(path: Seq<char>) -> bool {
    ||| path == "/up"@
    ||| path == "/health"@
    ||| path == "/v1/health"@
    ||| path == "/v1/obscura/mcp"@
    ||| path == "/obscura/mcp"@
}

/// Whether a path is open without a key.
pub fn is_public_path(path: &str) -> (r: bool)
    ensures
        r == public_path(path@),
{
    str_eq(path, "/up") || str_eq(path, "/health") || str_eq(path, "/v1/health") || str_eq(path, "/v1/obscura/mcp")
        || str_eq(path, "/obscura/mcp")
}

/// The `Authorization` value that the key `key` admits.
pub open spec fn bearer(key: Seq<char>) -> Seq<char> {
    "Bearer "@ + key
}

/// What the access check answers, given the configured key, the request path,
/// and the `Authorization` header: `None` where there is none, `Some(None)`
/// where it is not visible ASCII text, `Some(Some(v))` otherwise.
pub open spec fn auth_verdict(api_key: Option<Seq<char>>, path: Seq<char>, header: Option<Option<Seq<char>>>) -> Option<Seq<char>> {
    match api_key {
        None => None,
        Some(key) => if public_path(path) {
            None
        } else {
            match header {
                None => Some("missing authorization header"@),
                Some(None) => Some("invalid authorization header"@),
                Some(Some(v)) => if v == bearer(key) {
                    None
                } else {
                    Some("invalid api key"@)
                },
            }
        },
    }
}

/// Decides whether a request may go on: with no key configured every request
/// may; otherwise public paths may, and others need `Authorization: Bearer <key>`.
/// A refusal is a 401 with the reason.
pub fn authorize(api_key: &Option<String>, path: &str, header: Option<Option<&str>>) -> (r: Result<(), ApiError>)
    ensures
        match auth_verdict(
            crate::outside::opt_view(*api_key),
            path@,
            match header {
                None => None,
                Some(None) => Some(None),
                Some(Some(v)) => Some(Some(v@)),
            },
        ) {
            None => r is Ok,
            Some(message) => r matches Err(e) && e.is(UNAUTHORIZED, message),
        },
{
    let key = match api_key {
        Some(k) => k,
        None => {
            return Ok(());
        },
    };
    if is_public_path(path) {
        return Ok(());
    }
    match header {
        None => Err(ApiError::new(UNAUTHORIZED, owned("missing authorization header"))),
        Some(None) => Err(ApiError::new(UNAUTHORIZED, owned("invalid authorization header"))),
        Some(Some(v)) => {
            let expected = concat2("Bearer ", key.as_str());
            if !str_eq(v, expected.as_str()) {
                return Err(ApiError::new(UNAUTHORIZED, owned("invalid api key")));
            }
            Ok(())
        },
    }
}

/// With a key configured, a request to a path that is not public goes through
/// exactly when it carries `Authorization: Bearer <key>`.
pub proof fn law_only_the_right_bearer_passes(key: Seq<char>, path: Seq<char>, header: Option<Option<Seq<char>>>)
    requires
        !public_path(path),
    ensures
        auth_verdict(Some(key), path, header) is None <==> header == Some(Some(bearer(key))),
{
}

/// Without a key configured, every request goes through.
pub proof fn law_public_mode_admits_all(path: Seq<char>, header: Option<Option<Seq<char>>>)
    ensures
        auth_verdict(None, path, header) is None,
{
}

} // verus!

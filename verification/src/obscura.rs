//! The Obscura MCP proxy: which headers pass through, and the errors it answers with.

use vstd::prelude::*;
use crate::error::{ApiError, BAD_GATEWAY, SERVICE_UNAVAILABLE};
use crate::text::{concat2, owned, str_eq};

verus! {

/// The hop-by-hop headers of HTTP/1.1, which a proxy must not forward.
pub open spec fn hop_by_hop(name: Seq<char>) -> bool {
    ||| name == "connection"@
    ||| name == "keep-alive"@
    ||| name == "proxy-authenticate"@
    ||| name == "proxy-authorization"@
    ||| name == "te"@
    ||| name == "trailer"@
    ||| name == "transfer-encoding"@
    ||| name == "upgrade"@
}

/// Whether a (lower-case) header name is hop-by-hop.
pub fn is_hop_by_hop(name: &str) -> (r: bool)
    ensures
        r == hop_by_hop(name@),
{
    str_eq(name, "connection") || str_eq(name, "keep-alive") || str_eq(name, "proxy-authenticate") || str_eq(
        name,
        "proxy-authorization",
    ) || str_eq(name, "te") || str_eq(name, "trailer") || str_eq(name, "transfer-encoding") || str_eq(name, "upgrade")
}

/// Whether a request header goes on to the backend: all but hop-by-hop ones and `host`.
pub fn forward_request_header(name: &str) -> (r: bool)
    ensures
        r == (!hop_by_hop(name@) && name@ != "host"@),
{
    !is_hop_by_hop(name) && !str_eq(name, "host")
}

/// Whether a response header comes back to the client: all but hop-by-hop ones and `content-length`.
pub fn forward_response_header(name: &str) -> (r: bool)
    ensures
        r == (!hop_by_hop(name@) && name@ != "content-length"@),
{
    !is_hop_by_hop(name) && !str_eq(name, "content-length")
}

/// The answer when the backend cannot be reached (503, `obscura_unavailable`).
pub fn backend_unavailable(reason: &str) -> (e: ApiError)
    ensures
        e.is_coded(SERVICE_UNAVAILABLE, "obscura MCP backend unavailable: "@ + reason@, "obscura_unavailable"@),
{
    ApiError::service_unavailable(concat2("obscura MCP backend unavailable: ", reason)).with_code(owned("obscura_unavailable"))
}

/// The answer when the backend's response cannot be passed on (502, `obscura_invalid_response`).
pub fn backend_invalid_response(reason: &str) -> (e: ApiError)
    ensures
        e.is_coded(BAD_GATEWAY, "invalid response from obscura MCP backend: "@ + reason@, "obscura_invalid_response"@),
{
    ApiError::new(BAD_GATEWAY, concat2("invalid response from obscura MCP backend: ", reason)).with_code(
        owned("obscura_invalid_response"),
    )
}

} // verus!

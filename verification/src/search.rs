//! Web search and page extraction through the `ddgs` tool: request checks,
//! the tool's arguments, and what its exit status means.

use vstd::prelude::*;
use vstd::string::StringSliceAdditionalSpecFns;
use crate::error::{ApiError, BAD_GATEWAY, BAD_REQUEST, SERVICE_UNAVAILABLE};
use crate::orbit::tool_failed_message;
use crate::outside::opt_view;
use crate::text::{blank, decimal, is_blank, owned, truncatable, u64_to_string};
use vstd::utf8::encode_utf8;

verus! {

/// The views of a sequence of strings.
pub open spec fn strs(v: Seq<String>) -> Seq<Seq<char>> {
    v.map_values(|s: String| s@)
}

/// The body of a search request.
#[derive(Debug)]
pub struct SearchRequest {
    pub query: String,
    pub region: Option<String>,
    pub safesearch: Option<String>,
    pub timelimit: Option<String>,
    pub max_results: Option<u32>,
}

/// The body of a page extraction request.
#[derive(Debug)]
pub struct ExtractRequest {
    pub url: String,
    pub format: Option<String>,
}

/// The longest query, in bytes.
pub const MAX_QUERY_BYTES: usize = 512;
/// The most results a search may ask for.
pub const MAX_RESULTS: u32 = 50;

/// Why a search request is refused, in the order the checks are made, if it is.
pub open spec fn search_problem(req: SearchRequest) -> Option<Seq<char>> {
    if blank(req.query@) {
        Some("query is required"@)
    } else if encode_utf8(req.query@).len() > MAX_QUERY_BYTES {
        Some("query is too long (max 512 chars)"@)
    } else if (req.max_results matches Some(m) && m > MAX_RESULTS) {
        Some("max_results must be <= 50"@)
    } else {
        None
    }
}

/// Checks a search request: a query that is not blank and at most 512 bytes
/// long, and at most 50 results.
pub fn validate_search_request(request: &SearchRequest) -> (r: Result<(), ApiError>)
    ensures
        match search_problem(*request) {
            Some(m) => r matches Err(e) && e.is(BAD_REQUEST, m),
            None => r is Ok,
        },
{
    if is_blank(request.query.as_str()) {
        return Err(ApiError::bad_request(owned("query is required")));
    }
    if request.query.as_str().as_bytes().len() > MAX_QUERY_BYTES {
        return Err(ApiError::bad_request(owned("query is too long (max 512 chars)")));
    }
    if let Some(max) = request.max_results {
        if max > MAX_RESULTS {
            return Err(ApiError::bad_request(owned("max_results must be <= 50")));
        }
    }
    Ok(())
}

/// A flag and its value, where the value is given.
pub open spec fn opt_flag(flag: Seq<char>, value: Option<Seq<char>>) -> Seq<Seq<char>> {
    match value {
        Some(v) => seq![flag, v],
        None => Seq::empty(),
    }
}

/// The options of a search as `ddgs` arguments: region, safe search, time limit, result count.
pub open spec fn search_options(req: SearchRequest) -> Seq<Seq<char>> {
    opt_flag("-r"@, opt_view(req.region)) + opt_flag("-s"@, opt_view(req.safesearch)) + opt_flag(
        "-t"@,
        opt_view(req.timelimit),
    ) + opt_flag(
        "-m"@,
        match req.max_results {
            Some(m) => Some(decimal(m as nat)),
            None => None,
        },
    )
}

fn push_opt_flag(args: &mut Vec<String>, flag: &str, value: &Option<String>)
    ensures
        strs(final(args)@) == strs(old(args)@) + opt_flag(flag@, opt_view(*value)),
{
    if let Some(v) = value {
        args.push(owned(flag));
        args.push(v.clone());
        assert(strs(args@) =~= strs(old(args)@) + opt_flag(flag@, opt_view(*value)));
    } else {
        assert(strs(args@) =~= strs(old(args)@) + opt_flag(flag@, opt_view(*value)));
    }
}

/// Appends the options of a search to the `ddgs` arguments.
pub fn apply_search_options(request: &SearchRequest, args: &mut Vec<String>)
    ensures
        strs(final(args)@) == strs(old(args)@) + search_options(*request),
{
    push_opt_flag(args, "-r", &request.region);
    push_opt_flag(args, "-s", &request.safesearch);
    push_opt_flag(args, "-t", &request.timelimit);
    let count = match request.max_results {
        Some(m) => Some(u64_to_string(m as u64)),
        None => None,
    };
    push_opt_flag(args, "-m", &count);
    assert(strs(args@) =~= strs(old(args)@) + search_options(*request));
}

/// The `ddgs` arguments of a search of kind `kind` (`text` or `news`).
pub fn search_args(kind: &str, request: &SearchRequest) -> (r: Vec<String>)
    ensures
        strs(r@) == seq![kind@, "-q"@, request.query@] + search_options(*request),
{
    let mut args: Vec<String> = Vec::new();
    args.push(owned(kind));
    args.push(owned("-q"));
    args.push(request.query.clone());
    assert(strs(args@) =~= seq![kind@, "-q"@, request.query@]);
    apply_search_options(request, &mut args);
    args
}

/// The `ddgs` arguments of a page extraction; a blank address is refused.
pub fn extract_args(request: &ExtractRequest) -> (r: Result<Vec<String>, ApiError>)
    ensures
        blank(request.url@) ==> (r matches Err(e) && e.is(BAD_REQUEST, "url is required"@)),
        !blank(request.url@) ==> (r matches Ok(a) && strs(a@) == seq!["extract"@, "-u"@, request.url@] + opt_flag(
            "-f"@,
            opt_view(request.format),
        )),
{
    if is_blank(request.url.as_str()) {
        return Err(ApiError::bad_request(owned("url is required")));
    }
    let mut args: Vec<String> = Vec::new();
    args.push(owned("extract"));
    args.push(owned("-u"));
    args.push(request.url.clone());
    assert(strs(args@) =~= seq!["extract"@, "-u"@, request.url@]);
    push_opt_flag(&mut args, "-f", &request.format);
    Ok(args)
}

/// The full `ddgs` command line: the arguments and `-o <out_path>`; refused
/// with 503 when `ddgs` is not installed.
pub fn ddgs_command(available: bool, args: Vec<String>, out_path: &str) -> (r: Result<Vec<String>, ApiError>)
    ensures
        !available ==> (r matches Err(e) && e.is_coded(SERVICE_UNAVAILABLE, "ddgs is not available on this server"@, "ddgs_unavailable"@)),
        available ==> (r matches Ok(a) && strs(a@) == strs(args@) + seq!["-o"@, out_path@]),
{
    if !available {
        return Err(
            ApiError::service_unavailable(owned("ddgs is not available on this server")).with_code(owned("ddgs_unavailable")),
        );
    }
    let mut a = args;
    a.push(owned("-o"));
    a.push(owned(out_path));
    assert(strs(a@) =~= strs(args@) + seq!["-o"@, out_path@]);
    Ok(a)
}

/// What a finished tool run means: a non-zero exit status is a 502 carrying
/// the status and the start of the error output.
pub fn tool_outcome(tool: &str, status: i32, stderr: &str) -> (r: Result<(), ApiError>)
    requires
        status != 0 ==> truncatable(stderr@),
    ensures
        r is Ok <==> status == 0,
        r matches Err(e) ==> e.is(BAD_GATEWAY, tool_failed_message(tool@, status, stderr@)),
{
    if status != 0 {
        return Err(ApiError::bad_gateway(crate::orbit::tool_failed(tool, status, stderr)));
    }
    Ok(())
}

/// `flag` stands somewhere in `args` with `value` right after it.
pub open spec fn flag_with_value(args: Seq<Seq<char>>, flag: Seq<char>, value: Seq<char>) -> bool {
    exists|k: int| 0 <= k && k + 1 < args.len() && #[trigger] args[k] == flag && args[k + 1] == value
}

/// Every option a search gives reaches `ddgs` as its own flag followed by
/// its value, and nothing else is added: two arguments per given option.
pub proof fn law_search_options_carry_each_option(req: SearchRequest)
    ensures
        req.region matches Some(v) ==> flag_with_value(search_options(req), "-r"@, v@),
        req.safesearch matches Some(v) ==> flag_with_value(search_options(req), "-s"@, v@),
        req.timelimit matches Some(v) ==> flag_with_value(search_options(req), "-t"@, v@),
        req.max_results matches Some(m) ==> flag_with_value(search_options(req), "-m"@, decimal(m as nat)),
        search_options(req).len() == (if req.region is Some { 2int } else { 0int }) + (if req.safesearch is Some {
            2int
        } else {
            0int
        }) + (if req.timelimit is Some { 2int } else { 0int }) + (if req.max_results is Some { 2int } else { 0int }),
{
    let a = opt_flag("-r"@, opt_view(req.region));
    let b = opt_flag("-s"@, opt_view(req.safesearch));
    let c = opt_flag("-t"@, opt_view(req.timelimit));
    let d = opt_flag(
        "-m"@,
        match req.max_results {
            Some(m) => Some(decimal(m as nat)),
            None => None,
        },
    );
    let s = search_options(req);
    assert(s == a + b + c + d);
    if let Some(v) = req.region {
        assert(s[0] == "-r"@ && s[1] == v@);
    }
    if let Some(v) = req.safesearch {
        let k = a.len() as int;
        assert(s[k] == "-s"@ && s[k + 1] == v@);
    }
    if let Some(v) = req.timelimit {
        let k = (a.len() + b.len()) as int;
        assert(s[k] == "-t"@ && s[k + 1] == v@);
    }
    if let Some(m) = req.max_results {
        let k = (a.len() + b.len() + c.len()) as int;
        assert(s[k] == "-m"@ && s[k + 1] == decimal(m as nat));
    }
}

} // verus!

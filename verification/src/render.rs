//! Code snippet rendering through the `freeze` tool: request checks, the
//! file extension of the source, and the tool's arguments.

use vstd::prelude::*;
use crate::error::{ApiError, BAD_REQUEST, SERVICE_UNAVAILABLE};
use crate::outside::opt_view;
use crate::search::{opt_flag, strs};
use crate::text::{blank, chars_of, concat3, decimal, is_blank, lower_all, owned, push_char, u64_to_string};

verus! {

/// The image format of a rendered snippet.
#[derive(Debug, Clone, Copy, PartialEq, Eq, Structural)]
pub enum RenderFormat {
    Svg,
    Png,
}

impl RenderFormat {
    /// The file extension of the format.
    pub fn extension(&self) -> (r: &'static str)
        ensures
            r@ == (match *self {
                RenderFormat::Svg => "svg"@,
                RenderFormat::Png => "png"@,
            }),
    {
        match self {
            RenderFormat::Svg => "svg",
            RenderFormat::Png => "png",
        }
    }

    /// The media type of the format.
    pub fn content_type(&self) -> (r: &'static str)
        ensures
            r@ == (match *self {
                RenderFormat::Svg => "image/svg+xml"@,
                RenderFormat::Png => "image/png"@,
            }),
    {
        match self {
            RenderFormat::Svg => "image/svg+xml",
            RenderFormat::Png => "image/png",
        }
    }
}

/// The body of a render request.
#[derive(Debug)]
pub struct RenderSnippetRequest {
    pub code: String,
    pub language: Option<String>,
    pub theme: Option<String>,
    pub format: RenderFormat,
}

/// Why a render request is refused, in the order the checks are made, if it is.
pub open spec fn render_problem(req: RenderSnippetRequest, freeze_available: bool, max_chars: usize) -> Option<(u16, Seq<char>)> {
    if !freeze_available {
        Some((SERVICE_UNAVAILABLE, "freeze is not available on this server"@))
    } else if blank(req.code@) {
        Some((BAD_REQUEST, "code is required"@))
    } else if req.code@.len() > max_chars {
        Some((BAD_REQUEST, "code exceeds max length of "@ + decimal(max_chars as nat) + " characters"@))
    } else {
        None
    }
}

/// Checks a render request: `freeze` must be installed, and the code must not
/// be blank nor longer than `max_chars` characters.
pub fn validate_render_request(request: &RenderSnippetRequest, freeze_available: bool, max_chars: usize) -> (r: Result<(), ApiError>)
    ensures
        match render_problem(*request, freeze_available, max_chars) {
            Some((status, m)) => r matches Err(e) && e.status == status && e.message@ == m,
            None => r is Ok,
        },
        !freeze_available ==> (r matches Err(e) && e.code matches Some(c) && c@ == "freeze_unavailable"@),
        freeze_available ==> (r matches Err(e) ==> e.code is None),
{
    if !freeze_available {
        return Err(
            ApiError::service_unavailable(owned("freeze is not available on this server")).with_code(owned("freeze_unavailable")),
        );
    }
    if is_blank(request.code.as_str()) {
        return Err(ApiError::bad_request(owned("code is required")));
    }
    let chars = chars_of(request.code.as_str());
    if chars.len() > max_chars {
        let digits = u64_to_string(max_chars as u64);
        return Err(ApiError::bad_request(concat3("code exceeds max length of ", digits.as_str(), " characters")));
    }
    Ok(())
}

/// An ASCII letter or digit.
pub open spec fn ascii_alnum(c: char) -> bool {
    ('0' <= c && c <= '9') || ('a' <= c && c <= 'z') || ('A' <= c && c <= 'Z')
}

/// The predicate "is an ASCII letter or digit".
pub open spec fn ascii_alnum_pred() -> spec_fn(char) -> bool {
    |c: char| ascii_alnum(c)
}

/// The extension a snippet's source file gets for a language name: its ASCII
/// letters and digits, lower-cased, or `txt` where there are none.
pub open spec fn sanitized_language(lang: Seq<char>) -> Seq<char> {
    let clean = lang.filter(ascii_alnum_pred());
    if clean.len() == 0 {
        "txt"@
    } else {
        lower_all(clean)
    }
}

/// The extension a snippet's source file gets for a language name.
pub fn sanitize_language(lang: &str) -> (r: String)
    ensures
        r@ == sanitized_language(lang@),
{
    let v = chars_of(lang);
    let mut clean: Vec<char> = Vec::new();
    let mut i: usize = 0;
    while i < v.len()
        invariant
            i <= v@.len(),
            v@ == lang@,
            clean@ == v@.take(i as int).filter(ascii_alnum_pred()),
        decreases v.len() - i,
    {
        proof {
            reveal(Seq::filter);
            assert(v@.take(i + 1).drop_last() == v@.take(i as int));
            assert(v@.take(i + 1).last() == v@[i as int]);
        }
        let c = v[i];
        if ('0' <= c && c <= '9') || ('a' <= c && c <= 'z') || ('A' <= c && c <= 'Z') {
            clean.push(c);
        }
        i = i + 1;
    }
    assert(v@.take(v@.len() as int) == v@);
    if clean.len() == 0 {
        return owned("txt");
    }
    let mut out = String::new();
    let mut j: usize = 0;
    while j < clean.len()
        invariant
            j <= clean@.len(),
            out@ == lower_all(clean@.take(j as int)),
        decreases clean.len() - j,
    {
        push_char(&mut out, crate::text::char_lower(clean[j]));
        assert(lower_all(clean@.take(j + 1)) == lower_all(clean@.take(j as int)).push(crate::text::lower(clean@[j as int])));
        j = j + 1;
    }
    assert(clean@.take(clean@.len() as int) == clean@);
    out
}

/// The extension of a snippet's source file: the sanitized language, or `txt`.
pub fn snippet_extension(language: &Option<String>) -> (r: String)
    ensures
        r@ == (match opt_view(*language) {
            Some(l) => sanitized_language(l),
            None => "txt"@,
        }),
{
    match language {
        Some(l) => sanitize_language(l.as_str()),
        None => owned("txt"),
    }
}

/// The `freeze` arguments: the source, `-o` and the output, then the language
/// and theme where given.
pub fn freeze_args(source_path: &str, output_path: &str, language: Option<String>, theme: Option<String>) -> (r: Vec<String>)
    ensures
        strs(r@) == seq![source_path@, "-o"@, output_path@] + opt_flag("-l"@, opt_view(language)) + opt_flag(
            "-t"@,
            opt_view(theme),
        ),
{
    let mut args: Vec<String> = Vec::new();
    args.push(owned(source_path));
    args.push(owned("-o"));
    args.push(owned(output_path));
    let ghost base = strs(args@);
    assert(base =~= seq![source_path@, "-o"@, output_path@]);
    if let Some(l) = language {
        args.push(owned("-l"));
        args.push(l);
    }
    let ghost mid = strs(args@);
    assert(mid =~= base + opt_flag("-l"@, opt_view(language)));
    if let Some(t) = theme {
        args.push(owned("-t"));
        args.push(t);
    }
    assert(strs(args@) =~= mid + opt_flag("-t"@, opt_view(theme)));
    args
}

} // verus!

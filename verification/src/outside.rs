//! The calls this library makes into outside crates, each behind a small
//! trusted wrapper whose contract says what the crate documents of it.

use base64::Engine;
use sha2::Digest;
use vstd::prelude::*;
use crate::text::{lower_all, occurs_in};

verus! {

/// `chrono::Utc::now()`, split into whole seconds since the Unix epoch and the
/// nanoseconds past that second. chrono documents the nanosecond part as below
/// two seconds' worth (it exceeds one second only inside a leap second).
/// Nothing else is promised: the result is the current time.
#[verifier::external_body]
fn utc_now_parts() -> (r: (i64, u32))
    ensures
        r.1 < 2_000_000_000,
{
    let now = chrono::Utc::now();
    (now.timestamp(), now.timestamp_subsec_nanos())
}

/// A point in time, in nanoseconds since the Unix epoch.
pub type Timestamp = i128;

/// The current time as a `Timestamp`.
pub fn now() -> (t: Timestamp)
    ensures
        -9_223_372_036_854_775_808_000_000_000 <= t <= 9_223_372_036_854_775_809_000_000_000,
{
    let (secs, nanos) = utc_now_parts();
    (secs as i128) * 1_000_000_000 + (nanos as i128)
}

/// `uuid::Uuid::new_v4()`, as its sixteen bytes. The bytes are random; the crate
/// documents only that a UUID is sixteen bytes long.
#[verifier::external_body]
pub(crate) fn uuid_v4_bytes() -> (b: Vec<u8>)
    ensures
        b@.len() == 16,
{
    uuid::Uuid::new_v4().as_bytes().to_vec()
}

/// A program name that `which` looks up on the search path as it stands: not
/// empty, and with no `/`, `\` or `:` that would make it a path.
pub open spec fn bare_program_name(name: Seq<char>) -> bool {
    name.len() > 0 && !name.contains('/') && !name.contains('\\') && !name.contains(':')
}

/// `which::which(name)`: the path of the program `name` on the search path, as
/// `Path::display` renders it, or `None` where it is not found. Whether and
/// where it is found depends on the machine. For a bare name the crate joins
/// each search directory with the name (adding an extension and matching the
/// file's ASCII case on Windows), so the name occurs in what comes back,
/// ignoring ASCII case.
#[verifier::external_body]
pub(crate) fn which_path(name: &str) -> (r: Option<String>)
    ensures
        bare_program_name(name@) ==> (r matches Some(p) ==> occurs_in(lower_all(name@), lower_all(p@))),
{
    which::which(name).ok().map(|path| path.display().to_string())
}

/// `dirs::config_dir()`: this user's configuration directory, as
/// `Path::to_string_lossy` renders it, or `None` where the platform has none.
/// It depends on the environment, so nothing is promised of it.
#[verifier::external_body]
pub(crate) fn user_config_dir() -> (r: Option<String>) {
    dirs::config_dir().map(|path| path.to_string_lossy().to_string())
}

/// The SHA-256 digest of a byte string, as `sha2::Sha256::digest` computes it.
pub uninterp spec fn spec_sha256(data: Seq<u8>) -> Seq<u8>;

/// `sha2::Sha256::digest(data)`: the digest named `spec_sha256(data)`, which the
/// crate documents as 32 bytes long.
#[verifier::external_body]
pub(crate) fn sha256_digest(data: &[u8]) -> (d: Vec<u8>)
    ensures
        d@ == spec_sha256(data@),
        d@.len() == 32,
{
    sha2::Sha256::digest(data).to_vec()
}

/// The scheme and host that `http::Uri`'s parser finds in a text, or `None`
/// where it does not parse.
pub uninterp spec fn spec_uri_parts(s: Seq<char>) -> Option<(Option<Seq<char>>, Option<Seq<char>>)>;

/// The view of an optional owned string.
pub open spec fn opt_view(o: Option<String>) -> Option<Seq<char>> {
    match o {
        Some(s) => Some(s@),
        None => None,
    }
}

/// `s.parse::<http::Uri>()`, then `scheme_str()` and `host()` of the result:
/// the parts named `spec_uri_parts(s)`.
#[verifier::external_body]
pub(crate) fn uri_parts(s: &str) -> (r: Option<(Option<String>, Option<String>)>)
    ensures
        r is None <==> spec_uri_parts(s@) is None,
        r matches Some((scheme, host)) ==> spec_uri_parts(s@) == Some((opt_view(scheme), opt_view(host))),
{
    match s.parse::<http::Uri>() {
        Ok(uri) => Some((uri.scheme_str().map(String::from), uri.host().map(String::from))),
        Err(_) => None,
    }
}

/// What `base64::engine::general_purpose::URL_SAFE_NO_PAD` decodes a text to, or
/// `None` where it refuses the text.
pub uninterp spec fn spec_base64_url_decode(s: Seq<char>) -> Option<Seq<u8>>;

/// `URL_SAFE_NO_PAD.decode(s)`: the bytes named `spec_base64_url_decode(s)`.
#[verifier::external_body]
pub(crate) fn base64_url_decode(s: &str) -> (r: Option<Vec<u8>>)
    ensures
        r is None <==> spec_base64_url_decode(s@) is None,
        r matches Some(b) ==> spec_base64_url_decode(s@) == Some(b@),
{
    base64::engine::general_purpose::URL_SAFE_NO_PAD.decode(s).ok()
}

/// The text that `base64::engine::general_purpose::URL_SAFE_NO_PAD` encodes a
/// byte string to.
pub uninterp spec fn spec_base64_url_encode(b: Seq<u8>) -> Seq<char>;

/// A character of the URL-safe base64 alphabet: `A`-`Z`, `a`-`z`, `0`-`9`, `-`, `_`.
pub open spec fn base64_url_char(c: char) -> bool {
    ('A' <= c && c <= 'Z') || ('a' <= c && c <= 'z') || ('0' <= c && c <= '9') || c == '-' || c == '_'
}

/// `URL_SAFE_NO_PAD.encode(b)`: the text named `spec_base64_url_encode(b)`,
/// made of characters of the URL-safe alphabet only (the engine writes no
/// padding).
#[verifier::external_body]
pub(crate) fn base64_url_encode(b: &[u8]) -> (r: String)
    ensures
        r@ == spec_base64_url_encode(b@),
        forall|i: int| 0 <= i < r@.len() ==> base64_url_char(#[trigger] r@[i]),
{
    base64::engine::general_purpose::URL_SAFE_NO_PAD.encode(b)
}

/// `p256::SecretKey::random(&mut rand_core::OsRng).to_bytes()`: a fresh random
/// P-256 secret key as its 32-byte field encoding. Nothing more is promised:
/// the bytes are random.
#[verifier::external_body]
pub(crate) fn random_p256_secret_key() -> (r: Vec<u8>)
    ensures
        r@.len() == 32,
{
    p256::SecretKey::random(&mut rand_core::OsRng).to_bytes().to_vec()
}

/// The uncompressed public key that `web_push` derives from a VAPID private
/// key given as unpadded base64url text, or `None` where it refuses the key.
pub uninterp spec fn spec_vapid_public_key(private_key: Seq<char>) -> Option<Seq<u8>>;

/// `web_push::VapidSignatureBuilder::from_base64_no_sub(private_key)`, then
/// `get_public_key()` of the builder: the key named
/// `spec_vapid_public_key(private_key)`. The crate refuses a key only with
/// `WebPushError::InvalidCryptoKeys`, whose text is given back.
#[verifier::external_body]
pub(crate) fn vapid_public_key_bytes(private_key: &str) -> (r: Result<Vec<u8>, String>)
    ensures
        r is Ok <==> spec_vapid_public_key(private_key@) is Some,
        r matches Ok(b) ==> spec_vapid_public_key(private_key@) == Some(b@),
        r matches Err(m) ==> m@ == "request has invalid cryptographic keys"@,
{
    match web_push::VapidSignatureBuilder::from_base64_no_sub(private_key) {
        Ok(builder) => Ok(builder.get_public_key()),
        Err(err) => Err(err.to_string()),
    }
}

/// An incremental SHA-256 computation over the bytes fed to it so far. It holds
/// a `sha2::Sha256`, which Verus cannot declare: the name is an alias of
/// `digest`'s generic `CoreWrapper`, whose bounds name `digest` and `typenum`
/// traits that Verus does not know. So the struct is opaque, and the bytes fed
/// to it are named below.
#[verifier::external_body]
pub struct Sha256Stream {
    inner: sha2::Sha256,
}

/// The bytes fed to a `Sha256Stream` so far.
pub uninterp spec fn sha256_stream_input(h: Sha256Stream) -> Seq<u8>;

/// `sha2::Sha256::new()`: a computation that has been fed nothing.
#[verifier::external_body]
pub(crate) fn sha256_stream_new() -> (h: Sha256Stream)
    ensures
        sha256_stream_input(h) == Seq::<u8>::empty(),
{
    Sha256Stream { inner: sha2::Sha256::new() }
}

/// `Digest::update(&mut hasher, data)`: feeds `data` after what came before.
#[verifier::external_body]
pub(crate) fn sha256_stream_update(h: &mut Sha256Stream, data: &[u8])
    ensures
        sha256_stream_input(*final(h)) == sha256_stream_input(*old(h)) + data@,
{
    h.inner.update(data);
}

/// `Digest::finalize(hasher)`: the digest of everything fed, the same as
/// `Sha256::digest` of those bytes in one piece.
#[verifier::external_body]
pub(crate) fn sha256_stream_finalize(h: Sha256Stream) -> (d: Vec<u8>)
    ensures
        d@ == spec_sha256(sha256_stream_input(h)),
        d@.len() == 32,
{
    h.inner.finalize().to_vec()
}

} // verus!

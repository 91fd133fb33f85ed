//! The file store's endpoints: the record of an upload and the download headers.

use vstd::prelude::*;
use crate::file_index::FileMetadata;
use crate::outside::{opt_view, Timestamp};
use crate::text::{chars_of, owned, push_char, push_str};

verus! {

/// The record of an uploaded file: the part's file name, or `upload.bin`; its
/// content type, or `application/octet-stream`.
pub fn new_file_metadata(
    id: String,
    file_name: Option<String>,
    content_type: Option<String>,
    size: u64,
    sha256: String,
    created_at: Timestamp,
) -> (m: FileMetadata)
    ensures
        m.id == id,
        m.original_name@ == (match opt_view(file_name) {
            Some(n) => n,
            None => "upload.bin"@,
        }),
        m.mime_type@ == (match opt_view(content_type) {
            Some(t) => t,
            None => "application/octet-stream"@,
        }),
        m.size == size,
        m.sha256 == sha256,
        m.created_at == created_at,
{
    let original_name = match file_name {
        Some(n) => n,
        None => owned("upload.bin"),
    };
    let mime_type = match content_type {
        Some(t) => t,
        None => owned("application/octet-stream"),
    };
    FileMetadata { id, original_name, size, mime_type, sha256, created_at }
}

/// The predicate "is not a double quote".
pub open spec fn not_quote() -> spec_fn(char) -> bool {
    |c: char| c != '"'
}

/// The `Content-Disposition` of a download: an attachment named like the file,
/// double quotes removed from the name.
pub open spec fn attachment_header(name: Seq<char>) -> Seq<char> {
    "attachment; filename=\""@ + name.filter(not_quote()) + "\""@
}

/// Builds the `Content-Disposition` of a download.
pub fn content_disposition(name: &str) -> (r: String)
    ensures
        r@ == attachment_header(name@),
{
    let v = chars_of(name);
    let mut r = owned("attachment; filename=\"");
    let ghost start = r@;
    let mut i: usize = 0;
    while i < v.len()
        invariant
            i <= v@.len(),
            v@ == name@,
            r@ == start + v@.take(i as int).filter(not_quote()),
        decreases v.len() - i,
    {
        proof {
            reveal(Seq::filter);
            assert(v@.take(i + 1).drop_last() == v@.take(i as int));
            assert(v@.take(i + 1).last() == v@[i as int]);
        }
        if v[i] != '"' {
            push_char(&mut r, v[i]);
        }
        i = i + 1;
    }
    assert(v@.take(v@.len() as int) == v@);
    push_str(&mut r, "\"");
    r
}

} // verus!

//! Static folders (installers, long-lived resources): which file names may be
//! asked for, what media type a file is served as, and the listing order.

use vstd::prelude::*;
use crate::error::{ApiError, BAD_REQUEST};
use crate::outside::Timestamp;
use crate::paths::{path_starts_with, starts_with_path};
use crate::seqs::{first_match, lemma_first_match_at};
use crate::text::{chars_of, contains_char, contains_str, ends_with, occurs_in, owned};

verus! {

/// A file name may be served when it is not empty and holds no `/`, no `\`
/// and no `..`.
pub open spec fn static_name_valid(name: Seq<char>) -> bool {
    name.len() > 0 && !name.contains('/') && !name.contains('\\') && !occurs_in(".."@, name)
}

/// Refuses file names that are empty or could leave the folder.
pub fn validate_static_name(name: &str) -> (r: Result<(), ApiError>)
    ensures
        r is Ok <==> static_name_valid(name@),
        r matches Err(e) ==> e.is(BAD_REQUEST, "invalid file name"@),
{
    if name.is_empty() || contains_char(name, '/') || contains_char(name, '\\') || contains_str(name, "..") {
        return Err(ApiError::bad_request(owned("invalid file name")));
    }
    Ok(())
}

/// Refuses a resolved file path that does not lie under the resolved folder
/// it was asked from.
pub fn check_within_root(root: &str, path: &str) -> (r: Result<(), ApiError>)
    ensures
        r is Ok <==> path_starts_with(path@, root@),
        r matches Err(e) ==> e.is(BAD_REQUEST, "invalid file path"@),
{
    if !starts_with_path(path, root) {
        return Err(ApiError::bad_request(owned("invalid file path")));
    }
    Ok(())
}

/// The media type a file is served as, by its extension.
pub open spec fn mime_for(name: Seq<char>) -> Seq<char> {
    if ".sh"@.is_suffix_of(name) {
        "text/x-shellscript; charset=utf-8"@
    } else if ".md"@.is_suffix_of(name) {
        "text/markdown; charset=utf-8"@
    } else if ".txt"@.is_suffix_of(name) {
        "text/plain; charset=utf-8"@
    } else if ".json"@.is_suffix_of(name) {
        "application/json"@
    } else {
        "application/octet-stream"@
    }
}

/// The media type a file is served as.
pub fn mime_from_name(name: &str) -> (r: &'static str)
    ensures
        r@ == mime_for(name@),
{
    if ends_with(name, ".sh") {
        "text/x-shellscript; charset=utf-8"
    } else if ends_with(name, ".md") {
        "text/markdown; charset=utf-8"
    } else if ends_with(name, ".txt") {
        "text/plain; charset=utf-8"
    } else if ends_with(name, ".json") {
        "application/json"
    } else {
        "application/octet-stream"
    }
}

/// One file of a static folder listing.
#[derive(Debug)]
pub struct StaticFileEntry {
    pub name: String,
    pub size: u64,
    pub modified_at: Option<Timestamp>,
}

/// `a` comes before `b` in the order `str::cmp` gives (by code point, which
/// for UTF-8 is the byte order), a proper prefix first.
pub open spec fn name_lt(a: Seq<char>, b: Seq<char>) -> bool
    decreases a.len(),
{
    if a.len() == 0 {
        b.len() > 0
    } else if b.len() == 0 {
        false
    } else if (a[0] as u32) < (b[0] as u32) {
        true
    } else if (a[0] as u32) > (b[0] as u32) {
        false
    } else {
        name_lt(a.drop_first(), b.drop_first())
    }
}

/// Compares two names.
pub fn names_lt(a: &str, b: &str) -> (r: bool)
    ensures
        r == name_lt(a@, b@),
{
    let va = chars_of(a);
    let vb = chars_of(b);
    let mut i: usize = 0;
    assert(va@.skip(0) == va@);
    assert(vb@.skip(0) == vb@);
    while i < va.len() && i < vb.len() && va[i] == vb[i]
        invariant
            i <= va@.len(),
            i <= vb@.len(),
            va@ == a@,
            vb@ == b@,
            name_lt(a@, b@) == name_lt(va@.skip(i as int), vb@.skip(i as int)),
        decreases va.len() - i,
    {
        proof {
            assert(va@.skip(i as int).drop_first() == va@.skip(i + 1));
            assert(vb@.skip(i as int).drop_first() == vb@.skip(i + 1));
            assert(va@.skip(i as int)[0] == va@[i as int]);
            assert(vb@.skip(i as int)[0] == vb@[i as int]);
        }
        i = i + 1;
    }
    proof {
        assert(va@.skip(i as int).len() == va@.len() - i);
        assert(vb@.skip(i as int).len() == vb@.len() - i);
        if i < va.len() {
            assert(va@.skip(i as int)[0] == va@[i as int]);
        }
        if i < vb.len() {
            assert(vb@.skip(i as int)[0] == vb@[i as int]);
        }
    }
    if i == va.len() {
        assert(va@.skip(i as int) =~= Seq::<char>::empty());
        i < vb.len()
    } else if i == vb.len() {
        assert(vb@.skip(i as int) =~= Seq::<char>::empty());
        false
    } else {
        let x = va[i];
        let y = vb[i];
        assert(x != y);
        let ghost sa = va@.skip(i as int);
        let ghost sb = vb@.skip(i as int);
        assert(sa[0] == x && sb[0] == y);
        assert(sa.len() > 0 && sb.len() > 0);
        proof {
            vstd::utf8::char_u32_cast(x, x as u32);
            vstd::utf8::char_u32_cast(y, y as u32);
            assert((x as u32) != (y as u32));
            assert(name_lt(sa, sb) == ((x as u32) < (y as u32)));
        }
        (x as u32) < (y as u32)
    }
}

/// The predicate "comes after `name`" on entries.
pub open spec fn after_name(name: Seq<char>) -> spec_fn(StaticFileEntry) -> bool {
    |e: StaticFileEntry| name_lt(name, e.name@)
}

/// Inserts `x` after every entry whose name is not after `x`'s.
pub open spec fn insert_by_name(s: Seq<StaticFileEntry>, x: StaticFileEntry) -> Seq<StaticFileEntry> {
    match first_match(s, after_name(x.name@)) {
        Some(i) => s.insert(i, x),
        None => s.push(x),
    }
}

/// The stable sort of a listing by name, as `sort_by(|a, b| a.name.cmp(&b.name))` gives it.
pub open spec fn sort_by_name(s: Seq<StaticFileEntry>) -> Seq<StaticFileEntry>
    decreases s.len(),
{
    if s.len() == 0 {
        s
    } else {
        insert_by_name(sort_by_name(s.drop_last()), s.last())
    }
}

fn insert_by_name_exec(v: &mut Vec<StaticFileEntry>, x: StaticFileEntry)
    ensures
        final(v)@ == insert_by_name(old(v)@, x),
{
    let mut i: usize = 0;
    while i < v.len()
        invariant
            i <= v@.len(),
            v@ == old(v)@,
            forall|j: int| 0 <= j < i ==> !(#[trigger] after_name(x.name@)(v@[j])),
        decreases v.len() - i,
    {
        if names_lt(x.name.as_str(), v[i].name.as_str()) {
            proof {
                lemma_first_match_at(v@, after_name(x.name@), i as int);
            }
            v.insert(i, x);
            return;
        }
        i = i + 1;
    }
    proof {
        lemma_first_match_at(v@, after_name(x.name@), i as int);
    }
    v.push(x);
}

/// Sorts a listing by name, keeping equal names in their order.
pub fn sort_entries_by_name(v: Vec<StaticFileEntry>) -> (r: Vec<StaticFileEntry>)
    ensures
        r@ == sort_by_name(v@),
{
    let ghost orig = v@;
    let n = v.len();
    let mut out: Vec<StaticFileEntry> = Vec::new();
    let mut rest = v;
    let mut k: usize = 0;
    while rest.len() > 0
        invariant
            k <= orig.len(),
            orig.len() == n,
            orig.len() == k + rest@.len(),
            rest@ == orig.skip(k as int),
            out@ == sort_by_name(orig.take(k as int)),
        decreases rest.len(),
    {
        let x = rest.remove(0);
        proof {
            assert(x == orig[k as int]);
            assert(orig.take(k + 1).drop_last() == orig.take(k as int));
            assert(orig.take(k + 1).last() == x);
        }
        insert_by_name_exec(&mut out, x);
        proof {
            assert(rest@ =~= orig.skip(k + 1));
        }
        k = k + 1;
    }
    assert(orig.take(k as int) == orig);
    out
}

} // verus!

//! Random identifiers: version-4 UUIDs in the two text forms the server uses.

use vstd::prelude::*;
use crate::outside::uuid_v4_bytes;
use crate::text::{hex_lower, push_char, to_hex_lower};

verus! {

/// The "simple" text form of a UUID's bytes: 32 lower-case hex digits.
pub open spec fn uuid_simple_text(b: Seq<u8>) -> Seq<char> {
    hex_lower(b)
}

/// The hyphenated text form of a UUID's bytes: groups of 8, 4, 4, 4 and 12
/// lower-case hex digits joined by `-`.
pub open spec fn uuid_hyphenated_text(b: Seq<u8>) -> Seq<char> {
    hex_lower(b.subrange(0, 4)) + seq!['-'] + hex_lower(b.subrange(4, 6)) + seq!['-'] + hex_lower(
        b.subrange(6, 8),
    ) + seq!['-'] + hex_lower(b.subrange(8, 10)) + seq!['-'] + hex_lower(b.subrange(10, 16))
}

/// A hex encoding has two digits per byte.
pub proof fn lemma_hex_len(b: Seq<u8>)
    ensures
        hex_lower(b).len() == 2 * b.len(),
    decreases b.len(),
{
    if b.len() > 0 {
        lemma_hex_len(b.drop_last());
    }
}

/// A fresh random identifier, `Uuid::new_v4().simple().to_string()`.
pub fn new_simple_id() -> (s: String)
    ensures
        exists|b: Seq<u8>| b.len() == 16 && s@ == uuid_simple_text(b),
        s@.len() == 32,
{
    let b = uuid_v4_bytes();
    proof {
        lemma_hex_len(b@);
    }
    to_hex_lower(b.as_slice())
}

fn push_hex_range(s: &mut String, b: &Vec<u8>, lo: usize, hi: usize)
    requires
        lo <= hi <= b@.len(),
    ensures
        final(s)@ == old(s)@ + hex_lower(b@.subrange(lo as int, hi as int)),
{
    let sub = vstd::slice::slice_subrange(b.as_slice(), lo, hi);
    let h = to_hex_lower(sub);
    crate::text::push_str(s, h.as_str());
}

/// A fresh random identifier in hyphenated form, `Uuid::new_v4().to_string()`.
pub fn new_hyphenated_id() -> (s: String)
    ensures
        exists|b: Seq<u8>| b.len() == 16 && s@ == uuid_hyphenated_text(b),
{
    let b = uuid_v4_bytes();
    let mut s = String::new();
    push_hex_range(&mut s, &b, 0, 4);
    push_char(&mut s, '-');
    push_hex_range(&mut s, &b, 4, 6);
    push_char(&mut s, '-');
    push_hex_range(&mut s, &b, 6, 8);
    push_char(&mut s, '-');
    push_hex_range(&mut s, &b, 8, 10);
    push_char(&mut s, '-');
    push_hex_range(&mut s, &b, 10, 16);
    assert(s@ =~= uuid_hyphenated_text(b@));
    s
}

} // verus!

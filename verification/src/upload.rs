//! The running size and SHA-256 digest of an upload that arrives in chunks.

use vstd::prelude::*;
use crate::error::{ApiError, PAYLOAD_TOO_LARGE};
use crate::outside::{sha256_stream_finalize, sha256_stream_input, sha256_stream_new, sha256_stream_update, spec_sha256, Sha256Stream};
use crate::text::{concat3, decimal, hex_lower, to_hex_lower, u64_to_string};

verus! {

/// The message of the answer to a script upload over the size limit.
pub open spec fn too_large_message(max: u64) -> Seq<char> {
    "script exceeds max size of "@ + decimal(max as nat) + " bytes"@
}

/// An upload in progress: how many bytes came, what was hashed, and the size
/// limit, if any.
pub struct UploadProgress {
    size: u64,
    hasher: Sha256Stream,
    limit: Option<u64>,
}

impl UploadProgress {
    /// The byte count so far, capped at the largest `u64`.
    pub closed spec fn size_spec(&self) -> u64 {
        self.size
    }

    /// The bytes hashed so far.
    pub closed spec fn hashed(&self) -> Seq<u8> {
        sha256_stream_input(self.hasher)
    }

    /// The size limit.
    pub closed spec fn limit_spec(&self) -> Option<u64> {
        self.limit
    }

    /// An upload that has received nothing.
    pub fn new(limit: Option<u64>) -> (p: UploadProgress)
        ensures
            p.size_spec() == 0,
            p.hashed() == Seq::<u8>::empty(),
            p.limit_spec() == limit,
    {
        UploadProgress { size: 0, hasher: sha256_stream_new(), limit }
    }

    /// Takes in one chunk: counts it (saturating), refuses it when the count
    /// goes over the limit, and hashes it otherwise.
    pub fn absorb(&mut self, chunk: &[u8]) -> (r: Result<(), ApiError>)
        ensures
            final(self).size_spec() == (if old(self).size_spec() + chunk@.len() > u64::MAX {
                u64::MAX
            } else {
                (old(self).size_spec() + chunk@.len()) as u64
            }),
            final(self).limit_spec() == old(self).limit_spec(),
            old(self).limit_spec() matches Some(max) ==> (final(self).size_spec() > max ==> (r matches Err(e)
                && e.is(PAYLOAD_TOO_LARGE, too_large_message(max)) && final(self).hashed() == old(self).hashed())),
            !(old(self).limit_spec() matches Some(max) && final(self).size_spec() > max) ==> r is Ok
                && final(self).hashed() == old(self).hashed() + chunk@,
    {
        self.size = self.size.saturating_add(chunk.len() as u64);
        if let Some(max) = self.limit {
            if self.size > max {
                let digits = u64_to_string(max);
                return Err(ApiError::payload_too_large(concat3("script exceeds max size of ", digits.as_str(), " bytes")));
            }
        }
        sha256_stream_update(&mut self.hasher, chunk);
        Ok(())
    }

    /// The byte count and the lower-case hex SHA-256 of everything taken in.
    pub fn finish(self) -> (r: (u64, String))
        ensures
            r.0 == self.size_spec(),
            r.1@ == hex_lower(spec_sha256(self.hashed())),
    {
        let digest = sha256_stream_finalize(self.hasher);
        (self.size, to_hex_lower(digest.as_slice()))
    }
}

} // verus!

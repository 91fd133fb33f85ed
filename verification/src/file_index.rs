//! The metadata index of the file store: one entry per stored file, kept
//! newest first. Writing it to disk is the caller's part.

use vstd::prelude::*;
use crate::outside::Timestamp;
use crate::seqs::{first_match, lemma_first_match, lemma_first_match_at};
use crate::sorting::{Keyed, lemma_sort_desc_permutes, lemma_sort_desc_sorted, sort_desc, sort_desc_exec, sorted_desc};
use crate::lostandfound::first_of;
use crate::text::str_eq;

verus! {

/// What the store knows of one uploaded file.
#[derive(Debug)]
pub struct FileMetadata {
    pub id: String,
    pub original_name: String,
    pub size: u64,
    pub mime_type: String,
    pub sha256: String,
    pub created_at: Timestamp,
}

impl Clone for FileMetadata {
    fn clone(&self) -> (r: Self)
        ensures
            r == *self,
    {
        FileMetadata {
            id: self.id.clone(),
            original_name: self.original_name.clone(),
            size: self.size,
            mime_type: self.mime_type.clone(),
            sha256: self.sha256.clone(),
            created_at: self.created_at,
        }
    }
}

impl Keyed for FileMetadata {
    open spec fn key_of(&self) -> int {
        self.created_at as int
    }

    fn sort_key(&self) -> (k: i128) {
        self.created_at
    }
}

/// The predicate "has this id" on file entries.
pub open spec fn file_id_is(id: Seq<char>) -> spec_fn(FileMetadata) -> bool {
    |m: FileMetadata| m.id@ == id
}

/// No two entries share an id.
pub open spec fn unique_file_ids(s: Seq<FileMetadata>) -> bool {
    forall|i: int, j: int| 0 <= i < j < s.len() ==> #[trigger] s[i].id@ != #[trigger] s[j].id@
}

/// The entries of the file store.
#[derive(Debug)]
pub struct FileIndex {
    entries: Vec<FileMetadata>,
}

impl View for FileIndex {
    type V = Seq<FileMetadata>;

    closed spec fn view(&self) -> Seq<FileMetadata> {
        self.entries@
    }
}

impl FileIndex {
    /// An index holding the entries as they were read back from disk.
    pub fn from_entries(entries: Vec<FileMetadata>) -> (r: FileIndex)
        ensures
            r@ == entries@,
    {
        FileIndex { entries }
    }

    /// An index with no entries.
    pub fn empty() -> (r: FileIndex)
        ensures
            r@ == Seq::<FileMetadata>::empty(),
    {
        FileIndex { entries: Vec::new() }
    }

    fn position(&self, id: &str) -> (r: Option<usize>)
        ensures
            r matches Some(i) ==> first_match(self@, file_id_is(id@)) == Some(i as int) && i < self@.len(),
            r is None ==> first_match(self@, file_id_is(id@)) is None,
    {
        let mut i: usize = 0;
        while i < self.entries.len()
            invariant
                i <= self@.len(),
                forall|j: int| 0 <= j < i ==> !(#[trigger] file_id_is(id@)(self@[j])),
            decreases self.entries.len() - i,
        {
            if str_eq(self.entries[i].id.as_str(), id) {
                proof {
                    lemma_first_match_at(self@, file_id_is(id@), i as int);
                }
                return Some(i);
            }
            i = i + 1;
        }
        proof {
            lemma_first_match_at(self@, file_id_is(id@), i as int);
        }
        None
    }

    fn resort(&mut self)
        ensures
            final(self)@ == sort_desc(old(self)@),
    {
        let mut taken: Vec<FileMetadata> = Vec::new();
        std::mem::swap(&mut taken, &mut self.entries);
        self.entries = sort_desc_exec(taken);
    }

    /// Adds an entry and puts the index back in order, newest first.
    pub fn insert(&mut self, meta: FileMetadata)
        ensures
            final(self)@ == sort_desc(old(self)@.push(meta)),
    {
        self.entries.push(meta);
        self.resort();
    }

    /// Replaces the first entry with this id and puts the index back in order;
    /// gives back the new entry, or `None` (and changes nothing) where no entry has the id.
    pub fn update(&mut self, id: &str, meta: FileMetadata) -> (r: Option<FileMetadata>)
        ensures
            first_match(old(self)@, file_id_is(id@)) matches Some(i) ==> final(self)@ == sort_desc(
                old(self)@.update(i, meta),
            ) && r == Some(meta),
            first_match(old(self)@, file_id_is(id@)) is None ==> final(self)@ == old(self)@ && r is None,
    {
        match self.position(id) {
            Some(i) => {
                let out = meta.clone();
                self.entries.set(i, meta);
                self.resort();
                Some(out)
            },
            None => None,
        }
    }

    /// Removes the first entry with this id and gives it back, or `None` where there is none.
    pub fn delete(&mut self, id: &str) -> (r: Option<FileMetadata>)
        ensures
            first_match(old(self)@, file_id_is(id@)) matches Some(i) ==> final(self)@ == old(self)@.remove(i)
                && r == Some(old(self)@[i]),
            first_match(old(self)@, file_id_is(id@)) is None ==> final(self)@ == old(self)@ && r is None,
    {
        match self.position(id) {
            Some(i) => Some(self.entries.remove(i)),
            None => None,
        }
    }

    /// All entries, newest first.
    pub fn list(&self) -> (r: Vec<FileMetadata>)
        ensures
            r@ == self@,
    {
        let mut out: Vec<FileMetadata> = Vec::new();
        let mut i: usize = 0;
        while i < self.entries.len()
            invariant
                i <= self@.len(),
                out@ == self@.take(i as int),
            decreases self.entries.len() - i,
        {
            out.push(self.entries[i].clone());
            assert(self@.take(i + 1) == self@.take(i as int).push(self@[i as int]));
            i = i + 1;
        }
        assert(self@.take(self@.len() as int) == self@);
        out
    }

    /// The first entry with this id.
    pub fn get(&self, id: &str) -> (r: Option<FileMetadata>)
        ensures
            r == first_of(self@, file_id_is(id@)),
    {
        match self.position(id) {
            Some(i) => Some(self.entries[i].clone()),
            None => None,
        }
    }
}

/// Two sequences with the same elements contain the same values.
proof fn lemma_perm_contains(s: Seq<FileMetadata>, r: Seq<FileMetadata>, a: FileMetadata)
    requires
        r.to_multiset() == s.to_multiset(),
    ensures
        r.contains(a) == s.contains(a),
{
    vstd::seq_lib::to_multiset_contains(s, a);
    vstd::seq_lib::to_multiset_contains(r, a);
}

/// In a sequence where `x` is the only element with id `id`, the first element
/// with that id is `x`.
proof fn lemma_only_match(s: Seq<FileMetadata>, id: Seq<char>, x: FileMetadata)
    requires
        s.contains(x),
        x.id@ == id,
        forall|j: int| 0 <= j < s.len() && #[trigger] s[j].id@ == id ==> s[j] == x,
    ensures
        first_of(s, file_id_is(id)) == Some(x),
{
    lemma_first_match(s, file_id_is(id));
    let k = choose|k: int| 0 <= k < s.len() && s[k] == x;
    assert(file_id_is(id)(s[k]));
}

/// The index stays newest first: after any insert or update the entries are in
/// descending order of creation time.
pub proof fn law_index_sorted_after_insert(pre: Seq<FileMetadata>, meta: FileMetadata)
    ensures
        sorted_desc(sort_desc(pre.push(meta))),
        sort_desc(pre.push(meta)).to_multiset() == pre.to_multiset().insert(meta),
{
    broadcast use vstd::seq_lib::to_multiset_build;
    lemma_sort_desc_sorted(pre.push(meta));
    lemma_sort_desc_permutes(pre.push(meta));
}

/// A stored file is found by its id: inserting an entry whose id no entry has
/// makes a lookup of that id give the entry.
pub proof fn law_inserted_file_is_found(pre: Seq<FileMetadata>, meta: FileMetadata)
    requires
        forall|j: int| 0 <= j < pre.len() ==> #[trigger] pre[j].id@ != meta.id@,
    ensures
        first_of(sort_desc(pre.push(meta)), file_id_is(meta.id@)) == Some(meta),
{
    let s = pre.push(meta);
    let r = sort_desc(s);
    lemma_sort_desc_permutes(s);
    assert(s[pre.len() as int] == meta);
    assert(s.contains(meta));
    lemma_perm_contains(s, r, meta);
    assert forall|j: int| 0 <= j < r.len() && #[trigger] r[j].id@ == meta.id@ implies r[j] == meta by {
        assert(r.contains(r[j]));
        lemma_perm_contains(s, r, r[j]);
        let k = choose|k: int| 0 <= k < s.len() && s[k] == r[j];
        if k < pre.len() {
            assert(s[k] == pre[k]);
        }
    }
    lemma_only_match(r, meta.id@, meta);
}

/// An updated file is found with its new metadata: in an index with unique ids,
/// replacing the entry of `id` by one with the same id makes a lookup of `id`
/// give the new entry.
pub proof fn law_updated_file_is_found(pre: Seq<FileMetadata>, id: Seq<char>, meta: FileMetadata)
    requires
        unique_file_ids(pre),
        first_match(pre, file_id_is(id)) is Some,
        meta.id@ == id,
    ensures
        first_of(sort_desc(pre.update(first_match(pre, file_id_is(id))->0, meta)), file_id_is(id)) == Some(meta),
{
    lemma_first_match(pre, file_id_is(id));
    let i = first_match(pre, file_id_is(id))->0;
    let s = pre.update(i, meta);
    let r = sort_desc(s);
    lemma_sort_desc_permutes(s);
    assert(s[i] == meta);
    assert(s.contains(meta));
    lemma_perm_contains(s, r, meta);
    assert forall|j: int| 0 <= j < r.len() && #[trigger] r[j].id@ == id implies r[j] == meta by {
        assert(r.contains(r[j]));
        lemma_perm_contains(s, r, r[j]);
        let k = choose|k: int| 0 <= k < s.len() && s[k] == r[j];
        if k != i {
            assert(s[k] == pre[k]);
            assert(pre[i].id@ == id);
            if k < i {
                assert(pre[k].id@ != pre[i].id@);
            } else {
                assert(pre[i].id@ != pre[k].id@);
            }
        }
    }
    lemma_only_match(r, id, meta);
}

/// A deleted file is gone: in an index with unique ids, after the entry of
/// `id` is removed no entry has that id.
pub proof fn law_deleted_file_is_gone(pre: Seq<FileMetadata>, id: Seq<char>)
    requires
        unique_file_ids(pre),
        first_match(pre, file_id_is(id)) is Some,
    ensures
        first_match(pre.remove(first_match(pre, file_id_is(id))->0), file_id_is(id)) is None,
{
    lemma_first_match(pre, file_id_is(id));
    let i = first_match(pre, file_id_is(id))->0;
    let r = pre.remove(i);
    assert forall|j: int| 0 <= j < r.len() implies !(#[trigger] file_id_is(id)(r[j])) by {
        if j < i {
            assert(r[j] == pre[j]);
        } else {
            assert(r[j] == pre[j + 1]);
            assert(pre[i].id@ != pre[j + 1].id@);
        }
    }
    lemma_first_match_at(r, file_id_is(id), r.len() as int);
}

} // verus!

//! The companion CLI's side: the API client's address and key, and the file
//! manager's labels.

use vstd::prelude::*;
use crate::file_index::FileMetadata;
use crate::text::{chars_of, char_is_ws, concat2, decimal, is_ws, owned, push_char, push_str, string_of, u64_to_string};

verus! {

/// `s` without its trailing `/` characters, as `trim_end_matches('/')` leaves it.
pub open spec fn trim_slashes(s: Seq<char>) -> Seq<char>
    decreases s.len(),
{
    if s.len() > 0 && s.last() == '/' {
        trim_slashes(s.drop_last())
    } else {
        s
    }
}

/// Removes the trailing `/` characters of a text.
pub fn trim_trailing_slashes(s: &str) -> (r: String)
    ensures
        r@ == trim_slashes(s@),
{
    let v = chars_of(s);
    let mut end: usize = v.len();
    assert(v@.take(end as int) == v@);
    while end > 0 && v[end - 1] == '/'
        invariant
            end <= v@.len(),
            trim_slashes(v@.take(end as int)) == trim_slashes(s@),
            v@ == s@,
        decreases end,
    {
        assert(v@.take(end as int).drop_last() == v@.take(end - 1));
        end = end - 1;
    }
    let sub = vstd::slice::slice_subrange(v.as_slice(), 0, end);
    string_of(sub)
}

/// The `Authorization` value for an API key.
pub fn bearer_value(key: &str) -> (r: String)
    ensures
        r@ == "Bearer "@ + key@,
{
    concat2("Bearer ", key)
}

/// The address and key the CLI talks to the API with.
#[derive(Debug)]
pub struct StardiveClient {
    base_url: String,
    api_key: Option<String>,
}

impl StardiveClient {
    /// The address, without trailing `/`.
    pub closed spec fn base_url_spec(&self) -> Seq<char> {
        self.base_url@
    }

    /// The key.
    pub closed spec fn api_key_spec(&self) -> Option<String> {
        self.api_key
    }

    /// A client for `base_url` (trailing `/` removed) with an optional key.
    pub fn new(base_url: &str, api_key: Option<String>) -> (c: StardiveClient)
        ensures
            c.base_url_spec() == trim_slashes(base_url@),
            c.api_key_spec() == api_key,
    {
        StardiveClient { base_url: trim_trailing_slashes(base_url), api_key }
    }

    /// The address.
    pub fn base_url(&self) -> (r: &str)
        ensures
            r@ == self.base_url_spec(),
    {
        self.base_url.as_str()
    }

    /// The full address of an API path.
    pub fn url(&self, path: &str) -> (r: String)
        ensures
            r@ == self.base_url_spec() + path@,
    {
        concat2(self.base_url.as_str(), path)
    }

    /// The `Authorization` value to send, if a key is set.
    pub fn auth_header(&self) -> (r: Option<String>)
        ensures
            match self.api_key_spec() {
                Some(k) => r matches Some(v) && v@ == "Bearer "@ + k@,
                None => r is None,
            },
    {
        match &self.api_key {
            Some(k) => Some(bearer_value(k.as_str())),
            None => None,
        }
    }
}

/// The state of the desktop file manager.
#[derive(Debug)]
pub struct FileGuiApp {
    pub base_url: String,
    pub api_key: Option<String>,
    pub pending_files: Vec<String>,
    pub files: Vec<String>,
    pub status: String,
    pub download_target: String,
}

impl FileGuiApp {
    /// A file manager with nothing pending or listed, asking for files to be dropped.
    pub fn new(base_url: String, api_key: Option<String>) -> (r: FileGuiApp)
        ensures
            r.base_url == base_url,
            r.api_key == api_key,
            r.pending_files@.len() == 0,
            r.files@.len() == 0,
            r.status@ == "Drop files into this window, then click upload"@,
            r.download_target@ == "."@,
    {
        FileGuiApp {
            base_url,
            api_key,
            pending_files: Vec::new(),
            files: Vec::new(),
            status: owned("Drop files into this window, then click upload"),
            download_target: owned("."),
        }
    }

    /// Shows a fresh listing of the server's files: the listed files become
    /// the labels of `metas`, in order; nothing else changes.
    pub fn refresh_files(&mut self, metas: &Vec<FileMetadata>)
        ensures
            final(self).files@.len() == metas@.len(),
            forall|i: int| 0 <= i < metas@.len() ==> (#[trigger] final(self).files@[i])@ == file_label_spec(metas@[i]),
            final(self).base_url == old(self).base_url,
            final(self).api_key == old(self).api_key,
            final(self).pending_files == old(self).pending_files,
            final(self).status == old(self).status,
            final(self).download_target == old(self).download_target,
    {
        let mut labels: Vec<String> = Vec::new();
        let mut i: usize = 0;
        while i < metas.len()
            invariant
                i <= metas@.len(),
                labels@.len() == i,
                forall|j: int| 0 <= j < i ==> (#[trigger] labels@[j])@ == file_label_spec(metas@[j]),
            decreases metas.len() - i,
        {
            labels.push(file_label(&metas[i]));
            i = i + 1;
        }
        self.files = labels;
    }
}

/// The address of the file list at a server address.
pub open spec fn files_url_spec(base: Seq<char>) -> Seq<char> {
    trim_slashes(base) + "/v1/files"@
}

/// The address of the file list at a server address.
pub fn files_url(base: &str) -> (r: String)
    ensures
        r@ == files_url_spec(base@),
{
    let t = trim_trailing_slashes(base);
    concat2(t.as_str(), "/v1/files")
}

/// The address of one file at a server address.
pub fn file_url(base: &str, id: &str) -> (r: String)
    ensures
        r@ == files_url_spec(base@) + "/"@ + id@,
{
    let mut u = files_url(base);
    push_str(&mut u, "/");
    push_str(&mut u, id);
    u
}

/// The line the file manager shows for a file: `<id> (<name>, <size> bytes)`.
pub open spec fn file_label_spec(m: FileMetadata) -> Seq<char> {
    m.id@ + " ("@ + m.original_name@ + ", "@ + decimal(m.size as nat) + " bytes)"@
}

/// The line the file manager shows for a file.
pub fn file_label(m: &FileMetadata) -> (r: String)
    ensures
        r@ == file_label_spec(*m),
{
    let mut s = owned(m.id.as_str());
    push_str(&mut s, " (");
    push_str(&mut s, m.original_name.as_str());
    push_str(&mut s, ", ");
    let digits = u64_to_string(m.size);
    push_str(&mut s, digits.as_str());
    push_str(&mut s, " bytes)");
    s
}

/// The first word of a label, as `split_whitespace().next().unwrap_or_default()`
/// gives it: after any leading white space, the characters up to the next white space.
pub open spec fn first_word(s: Seq<char>) -> Seq<char>
    decreases s.len(),
{
    if s.len() == 0 {
        s
    } else if is_ws(s[0]) {
        first_word(s.drop_first())
    } else {
        leading_word(s)
    }
}

/// The characters of `s` before its first white space.
pub open spec fn leading_word(s: Seq<char>) -> Seq<char>
    decreases s.len(),
{
    if s.len() == 0 || is_ws(s[0]) {
        Seq::empty()
    } else {
        seq![s[0]] + leading_word(s.drop_first())
    }
}

proof fn lemma_leading_word_concat(a: Seq<char>, b: Seq<char>)
    requires
        forall|i: int| 0 <= i < a.len() ==> !is_ws(#[trigger] a[i]),
    ensures
        leading_word(a + b) == a + leading_word(b),
    decreases a.len(),
{
    if a.len() == 0 {
        assert(a + b =~= b);
        assert(a + leading_word(b) =~= leading_word(b));
    } else {
        lemma_leading_word_concat(a.drop_first(), b);
        assert((a + b)[0] == a[0]);
        assert((a + b).drop_first() =~= a.drop_first() + b);
        assert(seq![a[0]] + (a.drop_first() + leading_word(b)) =~= a + leading_word(b));
    }
}

/// A file's line in the file manager gives its id back as its first word,
/// where the id is not empty and holds no white space.
pub proof fn law_label_gives_back_id(m: FileMetadata)
    requires
        m.id@.len() > 0,
        forall|i: int| 0 <= i < m.id@.len() ==> !is_ws(#[trigger] m.id@[i]),
    ensures
        first_word(file_label_spec(m)) == m.id@,
{
    let rest = " ("@ + m.original_name@ + ", "@ + decimal(m.size as nat) + " bytes)"@;
    assert(file_label_spec(m) =~= m.id@ + rest);
    lemma_leading_word_concat(m.id@, rest);
    reveal_strlit(" (");
    assert(rest[0] == ' ');
    assert(leading_word(rest) == Seq::<char>::empty());
    assert(file_label_spec(m)[0] == m.id@[0]);
    assert(m.id@ + Seq::<char>::empty() =~= m.id@);
}

/// The id in a file manager line: its first word.
pub fn label_id(label: &str) -> (r: String)
    ensures
        r@ == first_word(label@),
{
    let v = chars_of(label);
    let mut i: usize = 0;
    assert(v@.skip(0) == v@);
    while i < v.len() && char_is_ws(v[i])
        invariant
            i <= v@.len(),
            v@ == label@,
            first_word(v@.skip(i as int)) == first_word(label@),
        decreases v.len() - i,
    {
        assert(v@.skip(i as int).drop_first() == v@.skip(i + 1));
        assert(v@.skip(i as int)[0] == v@[i as int]);
        i = i + 1;
    }
    let start = i;
    proof {
        if start < v.len() {
            assert(v@.skip(start as int)[0] == v@[start as int]);
        } else {
            assert(v@.skip(start as int).len() == 0);
        }
    }
    let mut out = String::new();
    assert(v@.skip(start as int) == v@.skip(i as int));
    while i < v.len() && !char_is_ws(v[i])
        invariant
            start <= i <= v@.len(),
            v@ == label@,
            out@ + leading_word(v@.skip(i as int)) == leading_word(v@.skip(start as int)),
        decreases v.len() - i,
    {
        proof {
            assert(v@.skip(i as int).drop_first() == v@.skip(i + 1));
            assert(v@.skip(i as int)[0] == v@[i as int]);
            assert(out@.push(v@[i as int]) + leading_word(v@.skip(i + 1)) =~= out@ + leading_word(v@.skip(i as int)));
        }
        push_char(&mut out, v[i]);
        i = i + 1;
    }
    proof {
        if i < v.len() {
            assert(v@.skip(i as int)[0] == v@[i as int]);
        } else {
            assert(v@.skip(i as int).len() == 0);
        }
        assert(out@ + leading_word(v@.skip(i as int)) =~= out@);
        if start < v.len() {
            assert(first_word(v@.skip(start as int)) == leading_word(v@.skip(start as int)));
        } else {
            assert(v@.skip(start as int).len() == 0);
        }
    }
    out
}

} // verus!

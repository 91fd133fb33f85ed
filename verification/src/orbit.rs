//! Orbit: a store of single-file Lua apps, uploaded or generated by the
//! `opencode` tool, kept newest first.

use vstd::prelude::*;
use crate::command::{CommandOutput, CommandRunner, is_run_cuttable, run_cuttable};
use crate::error::{ApiError, BAD_REQUEST, CONFLICT, NOT_FOUND, SERVICE_UNAVAILABLE};
use crate::lostandfound::first_of;
use crate::outside::Timestamp;
use crate::paths::{file_name, file_name_range};
use crate::seqs::{first_match, lemma_first_match, lemma_first_match_at};
use crate::sorting::{Keyed, sort_desc, sort_desc_exec};
use crate::text::{blank, chars_of, concat3, decimal, ends_with, is_blank, lower_all, occurs_in, owned, push_char, string_of, to_ascii_lowercase, str_eq};

verus! {

/// Where a script is in its life.
#[derive(Debug, Clone, Copy, PartialEq, Eq, Structural)]
pub enum OrbitScriptStatus {
    Pending,
    Generating,
    Ready,
    Failed,
    Uploaded,
}

/// How a script came to be.
#[derive(Debug, Clone, Copy, PartialEq, Eq, Structural)]
pub enum OrbitScriptSource {
    Uploaded,
    Generated,
    Refactor,
}

/// What the store knows of one script.
#[derive(Debug)]
pub struct OrbitScriptMetadata {
    pub id: String,
    pub name: String,
    pub size: u64,
    pub sha256: String,
    pub status: OrbitScriptStatus,
    pub source: OrbitScriptSource,
    pub parent_id: Option<String>,
    pub prompt: Option<String>,
    pub error: Option<String>,
    pub created_at: Timestamp,
    pub updated_at: Timestamp,
}

/// A copy of an optional string.
pub fn clone_opt_string(o: &Option<String>) -> (r: Option<String>)
    ensures
        r == *o,
{
    match o {
        Some(s) => Some(s.clone()),
        None => None,
    }
}

impl Clone for OrbitScriptMetadata {
    fn clone(&self) -> (r: Self)
        ensures
            r == *self,
    {
        OrbitScriptMetadata {
            id: self.id.clone(),
            name: self.name.clone(),
            size: self.size,
            sha256: self.sha256.clone(),
            status: self.status,
            source: self.source,
            parent_id: clone_opt_string(&self.parent_id),
            prompt: clone_opt_string(&self.prompt),
            error: clone_opt_string(&self.error),
            created_at: self.created_at,
            updated_at: self.updated_at,
        }
    }
}

impl Keyed for OrbitScriptMetadata {
    open spec fn key_of(&self) -> int {
        self.updated_at as int
    }

    fn sort_key(&self) -> (k: i128) {
        self.updated_at
    }
}

/// A character that script names may not hold: `/`, `\` or `"`.
pub open spec fn forbidden_name_char(c: char) -> bool {
    c == '/' || c == '\\' || c == '"'
}

/// The predicate "may stay in a script name".
pub open spec fn kept_name_char() -> spec_fn(char) -> bool {
    |c: char| !forbidden_name_char(c)
}

/// What `sanitize_lua_name` makes of an uploaded name: its last path component,
/// or `main.lua` where it has none, without `/`, `\` and `"`.
pub open spec fn sanitized_lua_name(s: Seq<char>) -> Seq<char> {
    match file_name(s) {
        Some(n) => n.filter(kept_name_char()),
        None => "main.lua"@,
    }
}

/// A script name is accepted when it is not blank and ends in `.lua`, ignoring ASCII case.
pub open spec fn lua_name_valid(name: Seq<char>) -> bool {
    !blank(name) && ".lua"@.is_suffix_of(lower_all(name))
}

fn filtered_range(v: &Vec<char>, a: usize, b: usize) -> (s: String)
    requires
        a <= b <= v@.len(),
    ensures
        s@ == v@.subrange(a as int, b as int).filter(kept_name_char()),
{
    let ghost sub = v@.subrange(a as int, b as int);
    let mut s = String::new();
    let mut i: usize = a;
    while i < b
        invariant
            a <= i <= b <= v@.len(),
            sub == v@.subrange(a as int, b as int),
            s@ == sub.take(i - a).filter(kept_name_char()),
        decreases b - i,
    {
        proof {
            reveal(Seq::filter);
            assert(sub.take(i - a + 1).drop_last() == sub.take(i - a));
            assert(sub.take(i - a + 1).last() == v@[i as int]);
        }
        let c = v[i];
        if !(c == '/' || c == '\\' || c == '"') {
            push_char(&mut s, c);
        }
        i = i + 1;
    }
    assert(sub.take(b - a) == sub);
    s
}

/// The last path component of an uploaded name, or `main.lua`, with `/`, `\`
/// and `"` removed.
pub fn sanitize_lua_name(input: &str) -> (r: String)
    ensures
        r@ == sanitized_lua_name(input@),
{
    let v = chars_of(input);
    match file_name_range(&v) {
        Some((a, b)) => filtered_range(&v, a, b),
        None => owned("main.lua"),
    }
}

/// Refuses a blank script name or one that does not end in `.lua` (in any case).
pub fn validate_lua_name(name: &str) -> (r: Result<(), ApiError>)
    ensures
        r is Ok <==> lua_name_valid(name@),
        r matches Err(e) ==> (if blank(name@) {
            e.is(BAD_REQUEST, "script name is required"@)
        } else {
            e.is(BAD_REQUEST, "script name must end with .lua"@)
        }),
{
    if is_blank(name) {
        return Err(ApiError::bad_request(owned("script name is required")));
    }
    let lower = to_ascii_lowercase(name);
    let lower_s = string_of(lower.as_slice());
    if !ends_with(lower_s.as_str(), ".lua") {
        return Err(ApiError::bad_request(owned("script name must end with .lua")));
    }
    Ok(())
}

/// The predicate "has this id" on scripts.
pub open spec fn script_id_is(id: Seq<char>) -> spec_fn(OrbitScriptMetadata) -> bool {
    |m: OrbitScriptMetadata| m.id@ == id
}

/// The predicate "has another id" on scripts.
pub open spec fn script_id_not(id: Seq<char>) -> spec_fn(OrbitScriptMetadata) -> bool {
    |m: OrbitScriptMetadata| m.id@ != id
}

/// The predicate "has this name" on scripts.
pub open spec fn script_name_is(name: Seq<char>) -> spec_fn(OrbitScriptMetadata) -> bool {
    |m: OrbitScriptMetadata| m.name@ == name
}

/// A change the background job makes to a script's record.
pub enum OrbitUpdate {
    /// The tool has started.
    Generating,
    /// The tool wrote the script, of this size and digest.
    Ready { size: u64, sha256: String },
    /// The job failed with this message.
    Failed { error: String },
}

/// A script's record after `upd` at time `t`.
pub open spec fn updated_script(m: OrbitScriptMetadata, upd: OrbitUpdate, t: Timestamp) -> OrbitScriptMetadata {
    match upd {
        OrbitUpdate::Generating => OrbitScriptMetadata { status: OrbitScriptStatus::Generating, updated_at: t, ..m },
        OrbitUpdate::Ready { size, sha256 } => OrbitScriptMetadata {
            status: OrbitScriptStatus::Ready,
            size,
            sha256,
            error: None,
            updated_at: t,
            ..m
        },
        OrbitUpdate::Failed { error } => OrbitScriptMetadata {
            status: OrbitScriptStatus::Failed,
            error: Some(error),
            updated_at: t,
            ..m
        },
    }
}

/// The message of the error for an update of an unknown script.
pub open spec fn script_not_found_message(id: Seq<char>) -> Seq<char> {
    "orbit script "@ + id + " not found"@
}

/// The script records, newest change first.
#[derive(Debug)]
pub struct OrbitIndex {
    scripts: Vec<OrbitScriptMetadata>,
}

impl View for OrbitIndex {
    type V = Seq<OrbitScriptMetadata>;

    closed spec fn view(&self) -> Seq<OrbitScriptMetadata> {
        self.scripts@
    }
}

impl OrbitIndex {
    /// An index holding the records as they were read back from disk.
    pub fn from_entries(scripts: Vec<OrbitScriptMetadata>) -> (r: OrbitIndex)
        ensures
            r@ == scripts@,
    {
        OrbitIndex { scripts }
    }

    /// An index with no records.
    pub fn empty() -> (r: OrbitIndex)
        ensures
            r@ == Seq::<OrbitScriptMetadata>::empty(),
    {
        OrbitIndex { scripts: Vec::new() }
    }

    fn position_by_id(&self, id: &str) -> (r: Option<usize>)
        ensures
            r matches Some(i) ==> first_match(self@, script_id_is(id@)) == Some(i as int) && i < self@.len(),
            r is None ==> first_match(self@, script_id_is(id@)) is None,
    {
        let mut i: usize = 0;
        while i < self.scripts.len()
            invariant
                i <= self@.len(),
                forall|j: int| 0 <= j < i ==> !(#[trigger] script_id_is(id@)(self@[j])),
            decreases self.scripts.len() - i,
        {
            if str_eq(self.scripts[i].id.as_str(), id) {
                proof {
                    lemma_first_match_at(self@, script_id_is(id@), i as int);
                }
                return Some(i);
            }
            i = i + 1;
        }
        proof {
            lemma_first_match_at(self@, script_id_is(id@), i as int);
        }
        None
    }

    fn position_by_name(&self, name: &str) -> (r: Option<usize>)
        ensures
            r matches Some(i) ==> first_match(self@, script_name_is(name@)) == Some(i as int) && i < self@.len(),
            r is None ==> first_match(self@, script_name_is(name@)) is None,
    {
        let mut i: usize = 0;
        while i < self.scripts.len()
            invariant
                i <= self@.len(),
                forall|j: int| 0 <= j < i ==> !(#[trigger] script_name_is(name@)(self@[j])),
            decreases self.scripts.len() - i,
        {
            if str_eq(self.scripts[i].name.as_str(), name) {
                proof {
                    lemma_first_match_at(self@, script_name_is(name@), i as int);
                }
                return Some(i);
            }
            i = i + 1;
        }
        proof {
            lemma_first_match_at(self@, script_name_is(name@), i as int);
        }
        None
    }

    fn resort(&mut self)
        ensures
            final(self)@ == sort_desc(old(self)@),
    {
        let mut taken: Vec<OrbitScriptMetadata> = Vec::new();
        std::mem::swap(&mut taken, &mut self.scripts);
        self.scripts = sort_desc_exec(taken);
    }

    /// Adds a record, replacing any with the same id, and puts the index back in order.
    pub fn insert(&mut self, script: OrbitScriptMetadata)
        ensures
            final(self)@ == sort_desc(old(self)@.filter(script_id_not(script.id@)).push(script)),
    {
        let mut kept: Vec<OrbitScriptMetadata> = Vec::new();
        let mut old_scripts: Vec<OrbitScriptMetadata> = Vec::new();
        std::mem::swap(&mut old_scripts, &mut self.scripts);
        let ghost orig = old_scripts@;
        let n = old_scripts.len();
        let mut k: usize = 0;
        while old_scripts.len() > 0
            invariant
                k <= orig.len(),
                orig.len() == n,
                orig.len() == k + old_scripts@.len(),
                old_scripts@ == orig.skip(k as int),
                kept@ == orig.take(k as int).filter(script_id_not(script.id@)),
            decreases old_scripts.len(),
        {
            let x = old_scripts.remove(0);
            proof {
                reveal(Seq::filter);
                assert(x == orig[k as int]);
                assert(orig.take(k + 1).drop_last() == orig.take(k as int));
                assert(orig.take(k + 1).last() == x);
                assert(old_scripts@ =~= orig.skip(k + 1));
            }
            if !str_eq(x.id.as_str(), script.id.as_str()) {
                kept.push(x);
            }
            k = k + 1;
        }
        assert(orig.take(k as int) == orig);
        kept.push(script);
        self.scripts = kept;
        self.resort();
    }

    /// All records, newest change first.
    pub fn list(&self) -> (r: Vec<OrbitScriptMetadata>)
        ensures
            r@ == self@,
    {
        let mut out: Vec<OrbitScriptMetadata> = Vec::new();
        let mut i: usize = 0;
        while i < self.scripts.len()
            invariant
                i <= self@.len(),
                out@ == self@.take(i as int),
            decreases self.scripts.len() - i,
        {
            out.push(self.scripts[i].clone());
            assert(self@.take(i + 1) == self@.take(i as int).push(self@[i as int]));
            i = i + 1;
        }
        assert(self@.take(self@.len() as int) == self@);
        out
    }

    /// The first record with this id.
    pub fn get(&self, id: &str) -> (r: Option<OrbitScriptMetadata>)
        ensures
            r == first_of(self@, script_id_is(id@)),
    {
        match self.position_by_id(id) {
            Some(i) => Some(self.scripts[i].clone()),
            None => None,
        }
    }

    /// The first record with this id, or else the first with this name.
    pub fn get_by_id_or_name(&self, value: &str) -> (r: Option<OrbitScriptMetadata>)
        ensures
            r == (match first_of(self@, script_id_is(value@)) {
                Some(m) => Some(m),
                None => first_of(self@, script_name_is(value@)),
            }),
    {
        match self.position_by_id(value) {
            Some(i) => Some(self.scripts[i].clone()),
            None => match self.position_by_name(value) {
                Some(i) => Some(self.scripts[i].clone()),
                None => None,
            },
        }
    }

    /// Applies a change to the first record with this id at time `t` and puts the
    /// index back in order; an unknown id is an error and changes nothing.
    pub fn update(&mut self, id: &str, upd: OrbitUpdate, t: Timestamp) -> (r: Result<(), String>)
        ensures
            first_match(old(self)@, script_id_is(id@)) matches Some(i) ==> r is Ok && final(self)@ == sort_desc(
                old(self)@.update(i, updated_script(old(self)@[i], upd, t)),
            ),
            first_match(old(self)@, script_id_is(id@)) is None ==> final(self)@ == old(self)@ && (r matches Err(
                m,
            ) && m@ == script_not_found_message(id@)),
    {
        match self.position_by_id(id) {
            Some(i) => {
                let old_script = self.scripts[i].clone();
                let new_script = match upd {
                    OrbitUpdate::Generating => OrbitScriptMetadata {
                        status: OrbitScriptStatus::Generating,
                        updated_at: t,
                        ..old_script
                    },
                    OrbitUpdate::Ready { size, sha256 } => OrbitScriptMetadata {
                        status: OrbitScriptStatus::Ready,
                        size,
                        sha256,
                        error: None,
                        updated_at: t,
                        ..old_script
                    },
                    OrbitUpdate::Failed { error } => OrbitScriptMetadata {
                        status: OrbitScriptStatus::Failed,
                        error: Some(error),
                        updated_at: t,
                        ..old_script
                    },
                };
                self.scripts.set(i, new_script);
                self.resort();
                Ok(())
            },
            None => Err(concat3("orbit script ", id, " not found")),
        }
    }

    /// Marks a script as being generated, at time `t`.
    pub fn mark_generating(&mut self, id: &str, t: Timestamp) -> (r: Result<(), String>)
        ensures
            first_match(old(self)@, script_id_is(id@)) matches Some(i) ==> r is Ok && final(self)@ == sort_desc(
                old(self)@.update(i, updated_script(old(self)@[i], OrbitUpdate::Generating, t)),
            ),
            first_match(old(self)@, script_id_is(id@)) is None ==> final(self)@ == old(self)@ && (r matches Err(m)
                && m@ == script_not_found_message(id@)),
    {
        self.update(id, OrbitUpdate::Generating, t)
    }

    /// Marks a script as ready, with the size and digest of what was written, at time `t`.
    pub fn mark_ready(&mut self, id: &str, size: u64, sha256: String, t: Timestamp) -> (r: Result<(), String>)
        ensures
            first_match(old(self)@, script_id_is(id@)) matches Some(i) ==> r is Ok && final(self)@ == sort_desc(
                old(self)@.update(i, updated_script(old(self)@[i], OrbitUpdate::Ready { size, sha256 }, t)),
            ),
            first_match(old(self)@, script_id_is(id@)) is None ==> final(self)@ == old(self)@ && (r matches Err(m)
                && m@ == script_not_found_message(id@)),
    {
        self.update(id, OrbitUpdate::Ready { size, sha256 }, t)
    }

    /// Marks a script as failed, with the error message, at time `t`.
    pub fn mark_failed(&mut self, id: &str, error: String, t: Timestamp) -> (r: Result<(), String>)
        ensures
            first_match(old(self)@, script_id_is(id@)) matches Some(i) ==> r is Ok && final(self)@ == sort_desc(
                old(self)@.update(i, updated_script(old(self)@[i], OrbitUpdate::Failed { error }, t)),
            ),
            first_match(old(self)@, script_id_is(id@)) is None ==> final(self)@ == old(self)@ && (r matches Err(m)
                && m@ == script_not_found_message(id@)),
    {
        self.update(id, OrbitUpdate::Failed { error }, t)
    }
}



/// Filing a script record replaces any earlier record with the same id: the
/// record is then the only one with its id, and a lookup of the id gives it.
pub proof fn law_insert_replaces_script(pre: Seq<OrbitScriptMetadata>, script: OrbitScriptMetadata)
    ensures
        first_of(sort_desc(pre.filter(script_id_not(script.id@)).push(script)), script_id_is(script.id@)) == Some(script),
        forall|j: int| 0 <= j < sort_desc(pre.filter(script_id_not(script.id@)).push(script)).len()
            && (#[trigger] sort_desc(pre.filter(script_id_not(script.id@)).push(script))[j]).id@ == script.id@
            ==> sort_desc(pre.filter(script_id_not(script.id@)).push(script))[j] == script,
{
    let f = pre.filter(script_id_not(script.id@));
    let s = f.push(script);
    let r = sort_desc(s);
    crate::sorting::lemma_sort_desc_permutes(s);
    assert(s[f.len() as int] == script);
    assert(s.contains(script));
    crate::seqs::lemma_perm_contains(s, r, script);
    assert forall|j: int| 0 <= j < r.len() && (#[trigger] r[j]).id@ == script.id@ implies r[j] == script by {
        assert(r.contains(r[j]));
        crate::seqs::lemma_perm_contains(s, r, r[j]);
        let k = choose|k: int| 0 <= k < s.len() && s[k] == r[j];
        if k < f.len() {
            assert(s[k] == f[k]);
            broadcast use vstd::seq_lib::group_filter_ensures;
            assert(script_id_not(script.id@)(f[k]));
        }
    }
    assert forall|j: int| 0 <= j < r.len() && #[trigger] script_id_is(script.id@)(r[j]) implies r[j] == script by {
        assert(r[j].id@ == script.id@);
    }
    crate::seqs::lemma_unique_match(r, script_id_is(script.id@), script);
}

/// A status change made by the generation job is seen by the next lookup: in
/// an index whose ids are unique, after `update` the record of `id` is the
/// changed one.
pub proof fn law_update_is_seen(pre: Seq<OrbitScriptMetadata>, id: Seq<char>, upd: OrbitUpdate, t: Timestamp)
    requires
        forall|i: int, j: int| 0 <= i < j < pre.len() ==> #[trigger] pre[i].id@ != #[trigger] pre[j].id@,
        first_match(pre, script_id_is(id)) is Some,
    ensures
        ({
            let i = first_match(pre, script_id_is(id))->0;
            first_of(sort_desc(pre.update(i, updated_script(pre[i], upd, t))), script_id_is(id)) == Some(
                updated_script(pre[i], upd, t),
            )
        }),
{
    lemma_first_match(pre, script_id_is(id));
    let i = first_match(pre, script_id_is(id))->0;
    let m = updated_script(pre[i], upd, t);
    let s = pre.update(i, m);
    let r = sort_desc(s);
    crate::sorting::lemma_sort_desc_permutes(s);
    assert(s[i] == m);
    assert(s.contains(m));
    crate::seqs::lemma_perm_contains(s, r, m);
    assert forall|j: int| 0 <= j < r.len() && #[trigger] script_id_is(id)(r[j]) implies r[j] == m by {
        assert(r.contains(r[j]));
        crate::seqs::lemma_perm_contains(s, r, r[j]);
        let k = choose|k: int| 0 <= k < s.len() && s[k] == r[j];
        if k != i {
            assert(s[k] == pre[k]);
            if k < i {
                assert(pre[k].id@ != pre[i].id@);
            } else {
                assert(pre[i].id@ != pre[k].id@);
            }
        }
    }
    crate::seqs::lemma_unique_match(r, script_id_is(id), m);
}

/// Scripts whose content can be served: uploaded ones and generated ones that are ready.
pub open spec fn content_ready(status: OrbitScriptStatus) -> bool {
    status == OrbitScriptStatus::Uploaded || status == OrbitScriptStatus::Ready
}

/// Refuses to serve a script whose content is not there yet (409).
pub fn check_downloadable(status: OrbitScriptStatus) -> (r: Result<(), ApiError>)
    ensures
        r is Ok <==> content_ready(status),
        r matches Err(e) ==> e.is(CONFLICT, "orbit script content is not ready"@),
{
    match status {
        OrbitScriptStatus::Uploaded | OrbitScriptStatus::Ready => Ok(()),
        _ => Err(ApiError::conflict(owned("orbit script content is not ready"))),
    }
}

/// The record of a script just uploaded, at time `t`.
pub fn new_uploaded_script(id: String, name: String, size: u64, sha256: String, t: Timestamp) -> (m: OrbitScriptMetadata)
    ensures
        m == (OrbitScriptMetadata {
            id,
            name,
            size,
            sha256,
            status: OrbitScriptStatus::Uploaded,
            source: OrbitScriptSource::Uploaded,
            parent_id: None,
            prompt: None,
            error: None,
            created_at: t,
            updated_at: t,
        }),
{
    OrbitScriptMetadata {
        id,
        name,
        size,
        sha256,
        status: OrbitScriptStatus::Uploaded,
        source: OrbitScriptSource::Uploaded,
        parent_id: None,
        prompt: None,
        error: None,
        created_at: t,
        updated_at: t,
    }
}

/// The message of the answer to a prompt over the length limit.
pub open spec fn prompt_too_long_message(max: usize) -> Seq<char> {
    "prompt is too long (max "@ + decimal(max as nat) + " chars)"@
}

/// Checks a generation request: the trimmed prompt must not be empty nor longer
/// than `max_chars` characters, and `opencode` must be installed.
pub fn validate_vibecode_request(prompt: &str, max_chars: usize, opencode_available: bool) -> (r: Result<(), ApiError>)
    ensures
        r is Ok <==> (!blank(prompt@) && crate::text::trimmed(prompt@).len() <= max_chars && opencode_available),
        r matches Err(e) ==> (if blank(prompt@) {
            e.is(BAD_REQUEST, "prompt is required"@)
        } else if crate::text::trimmed(prompt@).len() > max_chars {
            e.is(BAD_REQUEST, prompt_too_long_message(max_chars))
        } else {
            e.is_coded(SERVICE_UNAVAILABLE, "opencode is not available on this server"@, "opencode_unavailable"@)
        }),
{
    proof {
        crate::text::lemma_trimmed_empty_iff_blank(prompt@);
    }
    let n = crate::text::trimmed_char_count(prompt);
    if n == 0 {
        return Err(ApiError::bad_request(owned("prompt is required")));
    }
    if n > max_chars {
        let digits = crate::text::u64_to_string(max_chars as u64);
        return Err(ApiError::bad_request(concat3("prompt is too long (max ", digits.as_str(), " chars)")));
    }
    if !opencode_available {
        return Err(
            ApiError::service_unavailable(owned("opencode is not available on this server")).with_code(
                owned("opencode_unavailable"),
            ),
        );
    }
    Ok(())
}

/// The name a generated script gets: the requested one, sanitized; else the
/// name of the script it refactors; else `orbit-<id>.lua`.
pub open spec fn vibecode_name_spec(id: Seq<char>, requested: Option<Seq<char>>, parent: Option<OrbitScriptMetadata>) -> Seq<char> {
    match requested {
        Some(n) => sanitized_lua_name(n),
        None => match parent {
            Some(p) => p.name@,
            None => "orbit-"@ + id + ".lua"@,
        },
    }
}

/// The name a generated script gets.
pub fn vibecode_name(id: &str, requested: &Option<String>, parent: &Option<OrbitScriptMetadata>) -> (r: String)
    ensures
        r@ == vibecode_name_spec(id@, crate::outside::opt_view(*requested), *parent),
{
    match requested {
        Some(n) => sanitize_lua_name(n.as_str()),
        None => match parent {
            Some(p) => p.name.clone(),
            None => concat3("orbit-", id, ".lua"),
        },
    }
}

/// The body of a request to generate or refactor a script.
#[derive(Debug)]
pub struct OrbitVibecodeRequest {
    pub prompt: String,
    pub name: Option<String>,
    pub script_id: Option<String>,
}

/// The record of a generation job just accepted: pending, generated or (with a
/// parent) a refactor, carrying the prompt.
pub open spec fn is_new_job(
    m: OrbitScriptMetadata,
    id: Seq<char>,
    name: Seq<char>,
    parent: Option<OrbitScriptMetadata>,
    prompt: String,
    t: Timestamp,
) -> bool {
    &&& m.id@ == id
    &&& m.name@ == name
    &&& m.size == 0
    &&& m.sha256@ == Seq::<char>::empty()
    &&& m.status == OrbitScriptStatus::Pending
    &&& m.source == (if parent is Some { OrbitScriptSource::Refactor } else { OrbitScriptSource::Generated })
    &&& m.parent_id == (match parent {
        Some(p) => Some(p.id),
        None => None,
    })
    &&& m.prompt == Some(prompt)
    &&& m.error is None
    &&& m.created_at == t
    &&& m.updated_at == t
}

/// A generation prompt passes the checks: not blank, at most `max_chars`
/// characters once trimmed, and `opencode` installed.
pub open spec fn vibecode_prompt_ok(prompt: Seq<char>, max_chars: usize, opencode_available: bool) -> bool {
    !blank(prompt) && crate::text::trimmed(prompt).len() <= max_chars && opencode_available
}

/// The answer to a prompt that fails the checks, by the first check it fails.
pub open spec fn vibecode_prompt_refusal(prompt: Seq<char>, max_chars: usize, e: ApiError) -> bool {
    if blank(prompt) {
        e.is(BAD_REQUEST, "prompt is required"@)
    } else if crate::text::trimmed(prompt).len() > max_chars {
        e.is(BAD_REQUEST, prompt_too_long_message(max_chars))
    } else {
        e.is_coded(SERVICE_UNAVAILABLE, "opencode is not available on this server"@, "opencode_unavailable"@)
    }
}

/// The answer to a script name that is not accepted.
pub open spec fn lua_name_refusal(name: Seq<char>, e: ApiError) -> bool {
    if blank(name) {
        e.is(BAD_REQUEST, "script name is required"@)
    } else {
        e.is(BAD_REQUEST, "script name must end with .lua"@)
    }
}

/// The script a generation request refactors: the first with the id it names.
pub open spec fn vibecode_parent(scripts: Seq<OrbitScriptMetadata>, script_id: Option<String>) -> Option<OrbitScriptMetadata> {
    match script_id {
        Some(sid) => first_of(scripts, script_id_is(sid@)),
        None => None,
    }
}

/// What accepting generation request `req` under id `id` at time `t` does to
/// the scripts `pre`: the answer `r` and the scripts `post` after it. The
/// checks come in order: the prompt, the script to refactor, the name.
pub open spec fn vibecode_accepted(
    pre: Seq<OrbitScriptMetadata>,
    req: OrbitVibecodeRequest,
    id: Seq<char>,
    max_chars: usize,
    opencode_available: bool,
    t: Timestamp,
    r: Result<(OrbitScriptMetadata, Option<OrbitScriptMetadata>), ApiError>,
    post: Seq<OrbitScriptMetadata>,
) -> bool {
    let parent = vibecode_parent(pre, req.script_id);
    let name = vibecode_name_spec(id, crate::outside::opt_view(req.name), parent);
    if !vibecode_prompt_ok(req.prompt@, max_chars, opencode_available) {
        (r matches Err(e) && vibecode_prompt_refusal(req.prompt@, max_chars, e)) && post == pre
    } else if req.script_id is Some && parent is None {
        (r matches Err(e) && e.is(NOT_FOUND, "source orbit script not found"@)) && post == pre
    } else if !lua_name_valid(name) {
        (r matches Err(e) && lua_name_refusal(name, e)) && post == pre
    } else {
        &&& (r matches Ok((m, p)) && p == parent && is_new_job(m, id, name, parent, req.prompt, t)
            && post == sort_desc(pre.filter(script_id_not(id)).push(m)))
    }
}

impl OrbitIndex {
    /// Accepts a generation request at time `t` under the fresh id `id`: checks it,
    /// finds the script to refactor where one is named, names the new script,
    /// and files its pending record. Gives back the record and the parent.
    pub fn start_vibecode_at(
        &mut self,
        request: OrbitVibecodeRequest,
        id: String,
        max_chars: usize,
        opencode_available: bool,
        t: Timestamp,
    ) -> (r: Result<(OrbitScriptMetadata, Option<OrbitScriptMetadata>), ApiError>)
        ensures
            vibecode_accepted(old(self)@, request, id@, max_chars, opencode_available, t, r, final(self)@),
    {
        let valid = validate_vibecode_request(request.prompt.as_str(), max_chars, opencode_available);
        if let Err(e) = valid {
            return Err(e);
        }
        let parent = match &request.script_id {
            Some(parent_id) => {
                let found = self.get(parent_id.as_str());
                if found.is_none() {
                    return Err(ApiError::not_found(owned("source orbit script not found")));
                }
                found
            },
            None => None,
        };
        let name = vibecode_name(id.as_str(), &request.name, &parent);
        let checked = validate_lua_name(name.as_str());
        if let Err(e) = checked {
            return Err(e);
        }
        let parent_id = match &parent {
            Some(p) => Some(p.id.clone()),
            None => None,
        };
        let source = if parent.is_some() {
            OrbitScriptSource::Refactor
        } else {
            OrbitScriptSource::Generated
        };
        let script = OrbitScriptMetadata {
            id,
            name,
            size: 0,
            sha256: String::new(),
            status: OrbitScriptStatus::Pending,
            source,
            parent_id,
            prompt: Some(request.prompt),
            error: None,
            created_at: t,
            updated_at: t,
        };
        let out = script.clone();
        self.insert(script);
        Ok((out, parent))
    }

    /// Accepts a generation request now, under a fresh random id of 32
    /// characters, as `start_vibecode_at` does.
    pub fn start_vibecode(
        &mut self,
        request: OrbitVibecodeRequest,
        max_chars: usize,
        opencode_available: bool,
    ) -> (r: Result<(OrbitScriptMetadata, Option<OrbitScriptMetadata>), ApiError>)
        ensures
            exists|id: Seq<char>, t: Timestamp|
                id.len() == 32 && #[trigger] vibecode_accepted(old(self)@, request, id, max_chars, opencode_available, t, r, final(self)@),
    {
        let id = crate::ids::new_simple_id();
        let t = crate::outside::now();
        let ghost pre = self@;
        let ghost req = request;
        let ghost gid = id@;
        let r = self.start_vibecode_at(request, id, max_chars, opencode_available, t);
        assert(vibecode_accepted(pre, req, gid, max_chars, opencode_available, t, r, self@));
        r
    }
}

/// What the generation tool is told to build.
pub fn orbit_instructions() -> (r: &'static str)
    ensures
        r@ == "You are creating or refactoring a single-file Lua app for Orbit, a mobile app that runs Love2D Lua scripts like a browser. Produce valid Lua for Love2D. Prefer one self-contained file using love.load, love.update, love.draw, and touch/mouse input where useful. Keep assets procedural or embedded as code. Do not use desktop-only assumptions. Write only the final app script to output.lua."@,
{
    "You are creating or refactoring a single-file Lua app for Orbit, a mobile app that runs Love2D Lua scripts like a browser. Produce valid Lua for Love2D. Prefer one self-contained file using love.load, love.update, love.draw, and touch/mouse input where useful. Keep assets procedural or embedded as code. Do not use desktop-only assumptions. Write only the final app script to output.lua."
}

/// The message handed to the generation tool for a prompt; a refactor points
/// the tool at `input.lua`, a new script asks for a complete app.
pub open spec fn opencode_message_spec(prompt: Seq<char>, refactor: bool) -> Seq<char> {
    "Use the orbit-love2d skill.\n\n"@ + orbit_instructions_spec() + "\n\nUser prompt:\n"@ + prompt
        + "\n\nWrite the final Lua script to output.lua. You may read Lua examples from inspiration/*.lua, but only output.lua may be changed."@
        + (if refactor {
        "\n\nExisting script is in input.lua. Refactor it according to the prompt."@
    } else {
        "\n\nCreate a new complete Love2D app script."@
    })
}

/// The text of `orbit_instructions`.
pub open spec fn orbit_instructions_spec() -> Seq<char> {
    "You are creating or refactoring a single-file Lua app for Orbit, a mobile app that runs Love2D Lua scripts like a browser. Produce valid Lua for Love2D. Prefer one self-contained file using love.load, love.update, love.draw, and touch/mouse input where useful. Keep assets procedural or embedded as code. Do not use desktop-only assumptions. Write only the final app script to output.lua."@
}

/// The message handed to the generation tool.
pub fn opencode_message(prompt: &str, refactor: bool) -> (r: String)
    ensures
        r@ == opencode_message_spec(prompt@, refactor),
{
    let mut m = owned("Use the orbit-love2d skill.\n\n");
    crate::text::push_str(&mut m, orbit_instructions());
    crate::text::push_str(&mut m, "\n\nUser prompt:\n");
    crate::text::push_str(&mut m, prompt);
    crate::text::push_str(&mut m, "\n\nWrite the final Lua script to output.lua. You may read Lua examples from inspiration/*.lua, but only output.lua may be changed.");
    if refactor {
        crate::text::push_str(&mut m, "\n\nExisting script is in input.lua. Refactor it according to the prompt.");
    } else {
        crate::text::push_str(&mut m, "\n\nCreate a new complete Love2D app script.");
    }
    m
}

/// The arguments of the `opencode` run for job `id` in `job_dir`.
pub fn opencode_args(job_dir: &str, id: &str, message: String) -> (r: Vec<String>)
    ensures
        r@.len() == 6,
        r@[0]@ == "--pure"@,
        r@[1]@ == "--dir"@,
        r@[2]@ == job_dir@,
        r@[3]@ == "--title"@,
        r@[4]@ == "Orbit Lua "@ + id@,
        r@[5] == message,
{
    let mut args: Vec<String> = Vec::new();
    args.push(owned("--pure"));
    args.push(owned("--dir"));
    args.push(owned(job_dir));
    args.push(owned("--title"));
    args.push(crate::text::concat2("Orbit Lua ", id));
    args.push(message);
    args
}

/// The message of a failed tool run: its exit status and the start of its error output.
pub open spec fn tool_failed_message(tool: Seq<char>, status: i32, stderr: Seq<char>) -> Seq<char> {
    tool + " failed (status "@ + crate::text::signed_decimal(status as int) + "): "@ + crate::text::truncated(stderr)
}

/// The text of a tool failure: `<tool> failed (status N): <stderr, cut to 300 bytes>`.
pub fn tool_failed(tool: &str, status: i32, stderr: &str) -> (r: String)
    requires
        crate::text::truncatable(stderr@),
    ensures
        r@ == tool_failed_message(tool@, status, stderr@),
{
    let mut m = owned(tool);
    crate::text::push_str(&mut m, " failed (status ");
    let digits = crate::text::i32_to_string(status);
    crate::text::push_str(&mut m, digits.as_str());
    crate::text::push_str(&mut m, "): ");
    let cut = crate::text::truncate(stderr);
    crate::text::push_str(&mut m, cut.as_str());
    m
}

/// The outcome of the `opencode` run: a non-zero exit status is a failure.
pub fn opencode_outcome(status: i32, stderr: &str) -> (r: Result<(), String>)
    requires
        status != 0 ==> crate::text::truncatable(stderr@),
    ensures
        r is Ok <==> status == 0,
        r matches Err(m) ==> m@ == tool_failed_message("opencode"@, status, stderr@),
{
    if status != 0 {
        return Err(tool_failed("opencode", status, stderr));
    }
    Ok(())
}

/// `v` is what an `opencode` run that gave back `ran` means to the job: one
/// that could not start fails the job with the runner's reason; one that
/// exited non-zero fails it with its status and the start of its error
/// output; one that exited with 0 lets the job go on.
pub open spec fn opencode_verdict_is(ran: Result<CommandOutput, String>, v: Result<(), String>) -> bool {
    match ran {
        Err(m) => v matches Err(e) && e@ == m@,
        Ok(o) => {
            &&& (v is Ok <==> o.status == 0)
            &&& (v matches Err(e) ==> e@ == tool_failed_message("opencode"@, o.status, o.stderr@))
        },
    }
}

/// `r` is what the job makes of an `opencode` run that gave back `ran`: its
/// verdict, which for a run that exited with 0 is always `Ok`; `None` only
/// where a failed run's error output cannot be cut.
pub open spec fn opencode_answer_is(ran: Result<CommandOutput, String>, r: Option<Result<(), String>>) -> bool {
    if run_cuttable(ran) {
        r matches Some(v) && opencode_verdict_is(ran, v)
    } else {
        r is None
    }
}

/// What the `opencode` run means to the job, as `opencode_verdict_is` says.
pub fn opencode_run_verdict(ran: Result<CommandOutput, String>) -> (r: Result<(), String>)
    requires
        run_cuttable(ran),
    ensures
        opencode_verdict_is(ran, r),
{
    match ran {
        Err(m) => Err(m),
        Ok(o) => opencode_outcome(o.status, o.stderr.as_str()),
    }
}

/// Runs `opencode` for a job and says what the run means, as
/// `opencode_run_verdict` does. `None` when a failed run's error output cannot
/// be cut between two characters where the failure message cuts it. The
/// runner promises nothing of what it gives back, so the answer is that of
/// some outcome of a run.
pub fn run_opencode<R: CommandRunner>(runner: &R, args: &[String]) -> (r: Option<Result<(), String>>)
    ensures
        exists|ran: Result<CommandOutput, String>| #[trigger] opencode_answer_is(ran, r),
{
    let ran = runner.run("opencode", args);
    let ghost outcome = ran;
    let r = if is_run_cuttable(&ran) {
        Some(opencode_run_verdict(ran))
    } else {
        None
    };
    assert(opencode_answer_is(outcome, r));
    r
}

/// The size and lower-case hex SHA-256 of what the tool wrote; an empty file is a failure.
pub fn generated_script_digest(raw: &[u8]) -> (r: Result<(u64, String), String>)
    ensures
        r is Ok <==> raw@.len() > 0,
        r matches Ok((size, sha)) ==> size == raw@.len() && sha@ == crate::text::hex_lower(crate::outside::spec_sha256(raw@)),
        r matches Err(m) ==> m@ == "opencode created an empty output.lua"@,
{
    if raw.len() == 0 {
        return Err(owned("opencode created an empty output.lua"));
    }
    let digest = crate::outside::sha256_digest(raw);
    Ok((raw.len() as u64, crate::text::to_hex_lower(digest.as_slice())))
}

/// Scripts shown to the tool as examples: the others whose content is there.
pub open spec fn is_inspiration(m: OrbitScriptMetadata, active_id: Seq<char>) -> bool {
    m.id@ != active_id && content_ready(m.status)
}

/// The predicate "is an example for job `active_id`".
pub open spec fn inspiration_pred(active_id: Seq<char>) -> spec_fn(OrbitScriptMetadata) -> bool {
    |m: OrbitScriptMetadata| is_inspiration(m, active_id)
}

/// The file name an example is copied under: its id, `_`, and its sanitized name.
pub open spec fn inspiration_file_name(m: OrbitScriptMetadata) -> Seq<char> {
    m.id@ + "_"@ + sanitized_lua_name(m.name@)
}

/// The examples for job `active_id`, in index order, each with the file name it is copied under.
pub fn inspiration_copies(scripts: &Vec<OrbitScriptMetadata>, active_id: &str) -> (r: Vec<(String, String)>)
    ensures
        r@.len() == scripts@.filter(inspiration_pred(active_id@)).len(),
        forall|k: int| 0 <= k < r@.len() ==> {
            &&& #[trigger] r@[k].0@ == scripts@.filter(inspiration_pred(active_id@))[k].id@
            &&& r@[k].1@ == inspiration_file_name(scripts@.filter(inspiration_pred(active_id@))[k])
        },
{
    let mut out: Vec<(String, String)> = Vec::new();
    let mut i: usize = 0;
    while i < scripts.len()
        invariant
            i <= scripts@.len(),
            out@.len() == scripts@.take(i as int).filter(inspiration_pred(active_id@)).len(),
            forall|k: int| 0 <= k < out@.len() ==> #[trigger] out@[k].0@ == scripts@.take(i as int).filter(inspiration_pred(active_id@))[k].id@,
            forall|k: int| 0 <= k < out@.len() ==> #[trigger] out@[k].1@ == inspiration_file_name(scripts@.take(i as int).filter(inspiration_pred(active_id@))[k]),
        decreases scripts.len() - i,
    {
        let ghost before = scripts@.take(i as int).filter(inspiration_pred(active_id@));
        proof {
            reveal(Seq::filter);
            assert(scripts@.take(i + 1).drop_last() == scripts@.take(i as int));
            assert(scripts@.take(i + 1).last() == scripts@[i as int]);
        }
        let m = &scripts[i];
        let ready = match m.status {
            OrbitScriptStatus::Uploaded | OrbitScriptStatus::Ready => true,
            _ => false,
        };
        let selected = !str_eq(m.id.as_str(), active_id) && ready;
        let ghost old_out = out@;
        let ghost after = scripts@.take(i + 1).filter(inspiration_pred(active_id@));
        if selected {
            let clean = sanitize_lua_name(m.name.as_str());
            let target = concat3(m.id.as_str(), "_", clean.as_str());
            let idc = m.id.clone();
            proof {
                assert(*m == scripts@[i as int]);
                assert(idc@ == scripts@[i as int].id@);
                assert(target@ == inspiration_file_name(scripts@[i as int]));
            }
            out.push((idc, target));
            proof {
                assert(out@[out@.len() - 1].0@ == scripts@[i as int].id@);
                assert(out@[out@.len() - 1].1@ == inspiration_file_name(scripts@[i as int]));
            }
        }
        proof {
            assert(selected == inspiration_pred(active_id@)(scripts@[i as int]));
            if selected {
                assert(after == before.push(scripts@[i as int]));
                assert(out@.len() == after.len());
                assert forall|k: int| 0 <= k < out@.len() implies {
                    &&& #[trigger] out@[k].0@ == after[k].id@
                    &&& out@[k].1@ == inspiration_file_name(after[k])
                } by {
                    if k < before.len() {
                        assert(after[k] == before[k]);
                        assert(out@[k] == old_out[k]);
                        assert(old_out[k].0@ == before[k].id@);
                        assert(old_out[k].1@ == inspiration_file_name(before[k]));
                    } else {
                        assert(k == before.len());
                        assert(after[k] == scripts@[i as int]);
                        assert(out@[k] == out@[out@.len() - 1]);
                    }
                }
            } else {
                assert(after == before);
                assert(out@ == old_out);
                assert forall|k: int| 0 <= k < out@.len() implies {
                    &&& #[trigger] out@[k].0@ == after[k].id@
                    &&& out@[k].1@ == inspiration_file_name(after[k])
                } by {
                    assert(old_out[k].0@ == before[k].id@);
                }
            }
            assert(out@.len() == after.len());
        }
        i = i + 1;
        assert(after == scripts@.take(i as int).filter(inspiration_pred(active_id@)));
    }
    assert(scripts@.take(scripts@.len() as int) == scripts@);
    out
}

/// The project configuration written for the tool: every permission denied
/// except reading the prompt, the input, the output, the examples and the
/// skill, editing `output.lua`, listing the job's own folders, searching,
/// running the `stylua` and `selene` linters, and the Orbit skill. This is the
/// pretty-printed JSON of that policy, keys in sorted order.
pub fn opencode_project_config() -> (r: &'static str)
    ensures
        r@ == opencode_project_config_spec(),
{
    "{\n  \"$schema\": \"https://opencode.ai/config.json\",\n  \"permission\": {\n    \"*\": \"deny\",\n    \"bash\": {\n      \"*\": \"deny\",\n      \"selene\": \"allow\",\n      \"selene *\": \"allow\",\n      \"stylua\": \"allow\",\n      \"stylua *\": \"allow\"\n    },\n    \"edit\": {\n      \"*\": \"deny\",\n      \"output.lua\": \"allow\"\n    },\n    \"external_directory\": \"deny\",\n    \"glob\": {\n      \"*\": \"deny\",\n      \"*.lua\": \"allow\",\n      \"inspiration/*.lua\": \"allow\"\n    },\n    \"grep\": {\n      \"*\": \"allow\"\n    },\n    \"list\": {\n      \"*\": \"deny\",\n      \".\": \"allow\",\n      \".opencode/skill/orbit-love2d\": \"allow\",\n      \"inspiration\": \"allow\"\n    },\n    \"lsp\": \"deny\",\n    \"read\": {\n      \"*\": \"deny\",\n      \".opencode/skill/orbit-love2d/SKILL.md\": \"allow\",\n      \"input.lua\": \"allow\",\n      \"inspiration/*.lua\": \"allow\",\n      \"output.lua\": \"allow\",\n      \"prompt.txt\": \"allow\"\n    },\n    \"skill\": {\n      \"*\": \"deny\",\n      \"orbit-love2d\": \"allow\"\n    },\n    \"task\": \"deny\",\n    \"webfetch\": \"deny\",\n    \"websearch\": \"deny\"\n  }\n}"
}

/// The text of `opencode_project_config`.
pub open spec fn opencode_project_config_spec() -> Seq<char> {
    "{\n  \"$schema\": \"https://opencode.ai/config.json\",\n  \"permission\": {\n    \"*\": \"deny\",\n    \"bash\": {\n      \"*\": \"deny\",\n      \"selene\": \"allow\",\n      \"selene *\": \"allow\",\n      \"stylua\": \"allow\",\n      \"stylua *\": \"allow\"\n    },\n    \"edit\": {\n      \"*\": \"deny\",\n      \"output.lua\": \"allow\"\n    },\n    \"external_directory\": \"deny\",\n    \"glob\": {\n      \"*\": \"deny\",\n      \"*.lua\": \"allow\",\n      \"inspiration/*.lua\": \"allow\"\n    },\n    \"grep\": {\n      \"*\": \"allow\"\n    },\n    \"list\": {\n      \"*\": \"deny\",\n      \".\": \"allow\",\n      \".opencode/skill/orbit-love2d\": \"allow\",\n      \"inspiration\": \"allow\"\n    },\n    \"lsp\": \"deny\",\n    \"read\": {\n      \"*\": \"deny\",\n      \".opencode/skill/orbit-love2d/SKILL.md\": \"allow\",\n      \"input.lua\": \"allow\",\n      \"inspiration/*.lua\": \"allow\",\n      \"output.lua\": \"allow\",\n      \"prompt.txt\": \"allow\"\n    },\n    \"skill\": {\n      \"*\": \"deny\",\n      \"orbit-love2d\": \"allow\"\n    },\n    \"task\": \"deny\",\n    \"webfetch\": \"deny\",\n    \"websearch\": \"deny\"\n  }\n}"@
}

/// Whatever the prompt, and whether the job makes a new script or refactors
/// one, the message handed to `opencode` carries the user's prompt under its
/// heading.
pub proof fn law_message_carries_prompt(prompt: Seq<char>, refactor: bool)
    ensures
        occurs_in("\n\nUser prompt:\n"@ + prompt, opencode_message_spec(prompt, refactor)),
{
    let head = "Use the orbit-love2d skill.\n\n"@ + orbit_instructions_spec();
    let part = "\n\nUser prompt:\n"@ + prompt;
    let rest = "\n\nWrite the final Lua script to output.lua. You may read Lua examples from inspiration/*.lua, but only output.lua may be changed."@
        + (if refactor {
        "\n\nExisting script is in input.lua. Refactor it according to the prompt."@
    } else {
        "\n\nCreate a new complete Love2D app script."@
    });
    let m = opencode_message_spec(prompt, refactor);
    assert(m =~= head + part + rest);
    assert(m.subrange(head.len() as int, (head.len() + part.len()) as int) =~= part);
}

/// A refactor's message is a new script's message for the same prompt with
/// only its last sentence changed: the request for a complete app becomes the
/// pointer to `input.lua`.
pub proof fn law_refactor_changes_only_the_last_sentence(prompt: Seq<char>)
    ensures
        "\n\nCreate a new complete Love2D app script."@.is_suffix_of(opencode_message_spec(prompt, false)),
        opencode_message_spec(prompt, true) == opencode_message_spec(prompt, false).subrange(
            0,
            opencode_message_spec(prompt, false).len() - "\n\nCreate a new complete Love2D app script."@.len(),
        ) + "\n\nExisting script is in input.lua. Refactor it according to the prompt."@,
{
    let base = "Use the orbit-love2d skill.\n\n"@ + orbit_instructions_spec() + "\n\nUser prompt:\n"@ + prompt
        + "\n\nWrite the final Lua script to output.lua. You may read Lua examples from inspiration/*.lua, but only output.lua may be changed."@;
    let fresh = "\n\nCreate a new complete Love2D app script."@;
    let refactor = "\n\nExisting script is in input.lua. Refactor it according to the prompt."@;
    assert(opencode_message_spec(prompt, false) =~= base + fresh);
    assert(opencode_message_spec(prompt, true) =~= base + refactor);
    assert((base + fresh).subrange(0, base.len() as int) =~= base);
    assert((base + fresh).subrange(base.len() as int, (base + fresh).len() as int) =~= fresh);
}

} // verus!

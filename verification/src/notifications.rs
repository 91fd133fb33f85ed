//! Web Push notifications: the subscriptions kept on disk, the checks on what
//! clients send, and the bookkeeping of a broadcast. Sending itself is the
//! caller's part.

use vstd::prelude::*;
use crate::error::{ApiError, BAD_REQUEST, NOT_FOUND, PAYLOAD_TOO_LARGE};
use crate::ids::new_simple_id;
use crate::lostandfound::first_of;
use crate::outside::{
    base64_url_char, base64_url_decode, base64_url_encode, now, opt_view, random_p256_secret_key, spec_base64_url_decode,
    spec_base64_url_encode, spec_uri_parts, spec_vapid_public_key, uri_parts, vapid_public_key_bytes, Timestamp,
};
use crate::seqs::{first_match, lemma_first_match, lemma_first_match_at, lemma_first_match_push};
use crate::text::{blank, chars_of, concat2, is_blank, owned, starts_with, str_eq, trim, trimmed, trimmed_char_count};

verus! {

/// The longest title, in characters, once trimmed.
pub const MAX_TITLE_CHARS: usize = 160;
/// The longest body, in characters.
pub const MAX_BODY_CHARS: usize = 2_400;
/// The longest encoded notification, in bytes.
pub const MAX_PAYLOAD_BYTES: usize = 2_800;
/// The longest device name, in characters.
pub const MAX_DEVICE_NAME_CHARS: usize = 120;

/// The keys a browser hands out for encrypting pushes to it.
#[derive(Debug)]
pub struct PushSubscriptionKeys {
    pub p256dh: String,
    pub auth: String,
}

impl Clone for PushSubscriptionKeys {
    fn clone(&self) -> (r: Self)
        ensures
            r == *self,
    {
        PushSubscriptionKeys { p256dh: self.p256dh.clone(), auth: self.auth.clone() }
    }
}

/// A subscription as the server stores it.
#[derive(Debug)]
pub struct StoredSubscription {
    pub id: String,
    pub endpoint: String,
    pub keys: PushSubscriptionKeys,
    pub device_name: Option<String>,
    pub created_at: Timestamp,
}

impl Clone for StoredSubscription {
    fn clone(&self) -> (r: Self)
        ensures
            r == *self,
    {
        StoredSubscription {
            id: self.id.clone(),
            endpoint: self.endpoint.clone(),
            keys: self.keys.clone(),
            device_name: crate::orbit::clone_opt_string(&self.device_name),
            created_at: self.created_at,
        }
    }
}

/// A subscription as clients see it: without the keys.
#[derive(Debug)]
pub struct NotificationSubscription {
    pub id: String,
    pub endpoint: String,
    pub device_name: Option<String>,
    pub created_at: Timestamp,
}

impl StoredSubscription {
    /// The public view of this subscription.
    pub fn public(&self) -> (r: NotificationSubscription)
        ensures
            r.id == self.id,
            r.endpoint == self.endpoint,
            r.device_name == self.device_name,
            r.created_at == self.created_at,
    {
        NotificationSubscription {
            id: self.id.clone(),
            endpoint: self.endpoint.clone(),
            device_name: crate::orbit::clone_opt_string(&self.device_name),
            created_at: self.created_at,
        }
    }
}

/// The body of a subscription request.
#[derive(Debug)]
pub struct NotificationSubscriptionRequest {
    pub endpoint: String,
    pub keys: PushSubscriptionKeys,
    pub expiration_time: Option<u64>,
    pub device_name: Option<String>,
}

/// The body of a request to notify every subscriber.
#[derive(Debug)]
pub struct NotificationRequest {
    pub title: String,
    pub body: String,
    pub url: Option<String>,
    pub icon: Option<String>,
    pub tag: Option<String>,
    pub channel: Option<String>,
}

/// The outcome of a broadcast.
#[derive(Debug)]
pub struct NotificationDeliveryResponse {
    pub id: String,
    pub subscriptions: usize,
    pub delivered: usize,
    pub failed: usize,
    pub removed: usize,
}

/// What came of sending to one subscription.
#[derive(Debug)]
pub enum SendOutcome {
    /// The push service took the message.
    Delivered,
    /// The push service no longer knows the subscription.
    Expired,
    /// Sending failed for another reason.
    Failed(String),
}

/// A VAPID subject names the sender by a `mailto:` or an `https://` address.
pub open spec fn vapid_subject_valid(s: Seq<char>) -> bool {
    "mailto:"@.is_prefix_of(s) || "https://"@.is_prefix_of(s)
}

/// Refuses a VAPID subject that is neither a `mailto:` nor an HTTPS address.
pub fn validate_vapid_subject(subject: &str) -> (r: Result<(), String>)
    ensures
        r is Ok <==> vapid_subject_valid(subject@),
        r matches Err(m) ==> m@ == "STARDIVE_VAPID_SUBJECT must use mailto: or HTTPS"@,
{
    if !(starts_with(subject, "mailto:") || starts_with(subject, "https://")) {
        return Err(owned("STARDIVE_VAPID_SUBJECT must use mailto: or HTTPS"));
    }
    Ok(())
}

/// A fresh VAPID private key: 32 random bytes as unpadded base64url text.
pub fn new_vapid_private_key() -> (r: String)
    ensures
        exists|b: Seq<u8>| b.len() == 32 && r@ == spec_base64_url_encode(b),
        forall|i: int| 0 <= i < r@.len() ==> base64_url_char(#[trigger] r@[i]),
{
    let key = random_p256_secret_key();
    base64_url_encode(key.as_slice())
}

/// The VAPID private key kept on disk: the file's text, trimmed.
pub fn stored_vapid_private_key(raw: &str) -> (r: String)
    ensures
        r@ == trimmed(raw@),
{
    trim(raw)
}

/// A key written as base64url text reads back from disk as itself: trimming
/// it removes nothing, since no character of the alphabet is white space.
pub proof fn law_stored_key_reads_back(key: Seq<char>)
    requires
        forall|i: int| 0 <= i < key.len() ==> base64_url_char(#[trigger] key[i]),
    ensures
        trimmed(key) == key,
{
    if key.len() > 0 {
        assert(base64_url_char(key[0]));
        assert(base64_url_char(key[key.len() - 1]));
    }
}

/// The VAPID public key of a private key, as unpadded base64url text; a key
/// that `web_push` refuses is an error.
pub fn vapid_public_key(private_key: &str) -> (r: Result<String, String>)
    ensures
        match spec_vapid_public_key(private_key@) {
            Some(b) => r matches Ok(k) && k@ == spec_base64_url_encode(b),
            None => r matches Err(m) && m@ == "invalid VAPID private key: "@ + "request has invalid cryptographic keys"@,
        },
{
    match vapid_public_key_bytes(private_key) {
        Ok(b) => Ok(base64_url_encode(b.as_slice())),
        Err(m) => Err(concat2("invalid VAPID private key: ", m.as_str())),
    }
}

/// A link in a notification must be a path on this site (one `/`, not two)
/// or an HTTPS address.
pub open spec fn resource_url_valid(v: Seq<char>) -> bool {
    ("/"@.is_prefix_of(v) && !"//"@.is_prefix_of(v)) || "https://"@.is_prefix_of(v)
}

/// Refuses a link that is neither a path on this site nor an HTTPS address.
pub fn validate_resource_url(value: Option<&str>, field: &str) -> (r: Result<(), ApiError>)
    ensures
        r is Ok <==> (value matches Some(v) ==> resource_url_valid(v@)),
        r matches Err(e) ==> e.is(BAD_REQUEST, field@ + " must be relative or use HTTPS"@),
{
    if let Some(v) = value {
        if !((starts_with(v, "/") && !starts_with(v, "//")) || starts_with(v, "https://")) {
            return Err(ApiError::bad_request(concat2(field, " must be relative or use HTTPS")));
        }
    }
    Ok(())
}

/// The reason a notification is refused, in the order the checks are made, if any.
pub open spec fn notification_problem(req: NotificationRequest, encoded_len: usize) -> Option<(u16, Seq<char>)> {
    if blank(req.title@) || trimmed(req.title@).len() > MAX_TITLE_CHARS {
        Some((BAD_REQUEST, "title must be between 1 and 160 characters"@))
    } else if req.body@.len() > MAX_BODY_CHARS {
        Some((BAD_REQUEST, "body must be at most 2400 characters"@))
    } else if (opt_view(req.url) matches Some(u) && !resource_url_valid(u)) {
        Some((BAD_REQUEST, "url"@ + " must be relative or use HTTPS"@))
    } else if (opt_view(req.icon) matches Some(u) && !resource_url_valid(u)) {
        Some((BAD_REQUEST, "icon"@ + " must be relative or use HTTPS"@))
    } else if encoded_len > MAX_PAYLOAD_BYTES {
        Some((PAYLOAD_TOO_LARGE, "notification payload must be at most 2800 encoded bytes"@))
    } else {
        None
    }
}

/// Checks a notification: a title of 1 to 160 characters once trimmed, a body
/// of at most 2400 characters, safe links, and at most 2800 bytes once encoded
/// as JSON (`encoded`: the length of that encoding, or why it failed).
pub fn validate_notification(request: &NotificationRequest, encoded: Result<usize, String>) -> (r: Result<(), ApiError>)
    ensures
        encoded matches Ok(n) ==> (match notification_problem(*request, n) {
            Some((status, message)) => r matches Err(e) && e.is(status, message),
            None => r is Ok,
        }),
        encoded matches Err(m) ==> (notification_problem(*request, 0) matches Some((status, message)) ==> (r matches Err(e) && e.is(status, message))),
        encoded matches Err(m) ==> (notification_problem(*request, 0) is None ==> (r matches Err(e)
            && e.is(BAD_REQUEST, "invalid notification payload: "@ + m@))),
{
    proof {
        crate::text::lemma_trimmed_empty_iff_blank(request.title@);
    }
    let n = trimmed_char_count(request.title.as_str());
    if n == 0 || n > MAX_TITLE_CHARS {
        return Err(ApiError::bad_request(owned("title must be between 1 and 160 characters")));
    }
    let body = chars_of(request.body.as_str());
    if body.len() > MAX_BODY_CHARS {
        return Err(ApiError::bad_request(owned("body must be at most 2400 characters")));
    }
    let url = match &request.url {
        Some(u) => Some(u.as_str()),
        None => None,
    };
    assert(url matches Some(v) ==> opt_view(request.url) == Some(v@));
    assert(url is None ==> opt_view(request.url) is None);
    let checked_url = validate_resource_url(url, "url");
    if let Err(e) = checked_url {
        return Err(e);
    }
    let icon = match &request.icon {
        Some(u) => Some(u.as_str()),
        None => None,
    };
    assert(icon matches Some(v) ==> opt_view(request.icon) == Some(v@));
    assert(icon is None ==> opt_view(request.icon) is None);
    let checked_icon = validate_resource_url(icon, "icon");
    if let Err(e) = checked_icon {
        return Err(e);
    }
    match encoded {
        Ok(len) => {
            if len > MAX_PAYLOAD_BYTES {
                return Err(ApiError::payload_too_large(owned("notification payload must be at most 2800 encoded bytes")));
            }
            Ok(())
        },
        Err(m) => Err(ApiError::bad_request(concat2("invalid notification payload: ", m.as_str()))),
    }
}

/// The reason a subscription is refused, given what `http::Uri` makes of the
/// endpoint and whether each key decodes, in the order the checks are made.
pub open spec fn subscription_problem(
    req: NotificationSubscriptionRequest,
    uri: Option<(Option<Seq<char>>, Option<Seq<char>>)>,
    p256dh_decodes: bool,
    auth_decodes: bool,
) -> Option<Seq<char>> {
    if uri is None {
        Some("subscription endpoint must be a valid URL"@)
    } else if (uri->0).0 != Some("https"@) || (uri->0).1 is None {
        Some("subscription endpoint must use HTTPS"@)
    } else if !p256dh_decodes || !auth_decodes {
        Some("subscription keys must be unpadded base64url"@)
    } else if req.keys.p256dh@.len() == 0 || req.keys.auth@.len() == 0 {
        Some("subscription keys are required"@)
    } else if (opt_view(req.device_name) matches Some(n) && n.len() > MAX_DEVICE_NAME_CHARS) {
        Some("device_name must be at most 120 characters"@)
    } else {
        None
    }
}

/// Decides on a subscription from what the URI parser and the base64 decoder
/// made of it.
pub fn subscription_verdict(
    request: &NotificationSubscriptionRequest,
    uri: &Option<(Option<String>, Option<String>)>,
    p256dh_decodes: bool,
    auth_decodes: bool,
) -> (r: Result<(), ApiError>)
    ensures
        match subscription_problem(
            *request,
            match *uri {
                Some((s, h)) => Some((opt_view(s), opt_view(h))),
                None => None,
            },
            p256dh_decodes,
            auth_decodes,
        ) {
            Some(message) => r matches Err(e) && e.is(BAD_REQUEST, message),
            None => r is Ok,
        },
{
    match uri {
        None => {
            return Err(ApiError::bad_request(owned("subscription endpoint must be a valid URL")));
        },
        Some((scheme, host)) => {
            let https = match scheme {
                Some(s) => str_eq(s.as_str(), "https"),
                None => false,
            };
            if !https || host.is_none() {
                return Err(ApiError::bad_request(owned("subscription endpoint must use HTTPS")));
            }
        },
    }
    if !p256dh_decodes || !auth_decodes {
        return Err(ApiError::bad_request(owned("subscription keys must be unpadded base64url")));
    }
    if request.keys.p256dh.as_str().is_empty() || request.keys.auth.as_str().is_empty() {
        return Err(ApiError::bad_request(owned("subscription keys are required")));
    }
    if let Some(name) = &request.device_name {
        let chars = chars_of(name.as_str());
        if chars.len() > MAX_DEVICE_NAME_CHARS {
            return Err(ApiError::bad_request(owned("device_name must be at most 120 characters")));
        }
    }
    Ok(())
}

/// Checks a subscription: an HTTPS endpoint with a host, both keys unpadded
/// base64url and not empty, and a device name of at most 120 characters.
pub fn validate_subscription(request: &NotificationSubscriptionRequest) -> (r: Result<(), ApiError>)
    ensures
        match subscription_problem(
            *request,
            spec_uri_parts(request.endpoint@),
            spec_base64_url_decode(request.keys.p256dh@) is Some,
            spec_base64_url_decode(request.keys.auth@) is Some,
        ) {
            Some(message) => r matches Err(e) && e.is(BAD_REQUEST, message),
            None => r is Ok,
        },
{
    let uri = uri_parts(request.endpoint.as_str());
    let p = base64_url_decode(request.keys.p256dh.as_str()).is_some();
    let a = base64_url_decode(request.keys.auth.as_str()).is_some();
    subscription_verdict(request, &uri, p, a)
}

/// The predicate "has this endpoint" on subscriptions.
pub open spec fn endpoint_is(endpoint: Seq<char>) -> spec_fn(StoredSubscription) -> bool {
    |s: StoredSubscription| s.endpoint@ == endpoint
}

/// The predicate "has another id" on subscriptions.
pub open spec fn sub_id_not(id: Seq<char>) -> spec_fn(StoredSubscription) -> bool {
    |s: StoredSubscription| s.id@ != id
}

/// The predicate "has an id not in the list" on subscriptions.
pub open spec fn sub_id_not_in(ids: Seq<Seq<char>>) -> spec_fn(StoredSubscription) -> bool {
    |s: StoredSubscription| !ids.contains(s.id@)
}

/// The subscriptions on file.
#[derive(Debug)]
pub struct SubscriptionList {
    subscriptions: Vec<StoredSubscription>,
}

impl View for SubscriptionList {
    type V = Seq<StoredSubscription>;

    closed spec fn view(&self) -> Seq<StoredSubscription> {
        self.subscriptions@
    }
}

/// `post` is `pre` after a subscription request at time `t` that got the fresh id
/// `id`: the first subscription with the same endpoint has its keys and device
/// name replaced, or else a new one is appended; `r` is the result.
pub open spec fn subscribed(
    pre: Seq<StoredSubscription>,
    req: NotificationSubscriptionRequest,
    id: Seq<char>,
    t: Timestamp,
    post: Seq<StoredSubscription>,
    r: StoredSubscription,
) -> bool {
    match first_match(pre, endpoint_is(req.endpoint@)) {
        Some(i) => r == (StoredSubscription { keys: req.keys, device_name: req.device_name, ..pre[i] })
            && post == pre.update(i, r),
        None => r.id@ == id && r.endpoint == req.endpoint && r.keys == req.keys && r.device_name
            == req.device_name && r.created_at == t && post == pre.push(r),
    }
}

impl SubscriptionList {
    /// The list as it was read back from disk.
    pub fn from_entries(subscriptions: Vec<StoredSubscription>) -> (r: SubscriptionList)
        ensures
            r@ == subscriptions@,
    {
        SubscriptionList { subscriptions }
    }

    /// All subscriptions, in order.
    pub fn snapshot(&self) -> (r: Vec<StoredSubscription>)
        ensures
            r@ == self@,
    {
        let mut out: Vec<StoredSubscription> = Vec::new();
        let mut i: usize = 0;
        while i < self.subscriptions.len()
            invariant
                i <= self@.len(),
                out@ == self@.take(i as int),
            decreases self.subscriptions.len() - i,
        {
            out.push(self.subscriptions[i].clone());
            assert(self@.take(i + 1) == self@.take(i as int).push(self@[i as int]));
            i = i + 1;
        }
        assert(self@.take(self@.len() as int) == self@);
        out
    }

    /// Records a subscription at time `t`, under `id` when it is new.
    pub fn subscribe_at(&mut self, request: NotificationSubscriptionRequest, id: String, t: Timestamp) -> (r: NotificationSubscription)
        ensures
            exists|s: StoredSubscription| {
                &&& subscribed(old(self)@, request, id@, t, final(self)@, s)
                &&& r.id == s.id && r.endpoint == s.endpoint && r.device_name == s.device_name && r.created_at
                    == s.created_at
            },
    {
        let mut i: usize = 0;
        while i < self.subscriptions.len()
            invariant
                i <= self@.len(),
                self@ == old(self)@,
                forall|j: int| 0 <= j < i ==> !(#[trigger] endpoint_is(request.endpoint@)(self@[j])),
            decreases self.subscriptions.len() - i,
        {
            if str_eq(self.subscriptions[i].endpoint.as_str(), request.endpoint.as_str()) {
                proof {
                    lemma_first_match_at(self@, endpoint_is(request.endpoint@), i as int);
                }
                let existing = self.subscriptions[i].clone();
                let updated = StoredSubscription {
                    keys: request.keys,
                    device_name: request.device_name,
                    ..existing
                };
                let out = updated.public();
                let ghost w = updated;
                self.subscriptions.set(i, updated);
                assert(subscribed(old(self)@, request, id@, t, self@, w));
                return out;
            }
            i = i + 1;
        }
        proof {
            lemma_first_match_at(self@, endpoint_is(request.endpoint@), i as int);
        }
        let s = StoredSubscription {
            id,
            endpoint: request.endpoint,
            keys: request.keys,
            device_name: request.device_name,
            created_at: t,
        };
        let out = s.public();
        let ghost w = s;
        self.subscriptions.push(s);
        assert(subscribed(old(self)@, request, id@, t, self@, w));
        out
    }

    /// Records a subscription now; a new one gets a fresh random id.
    pub fn subscribe(&mut self, request: NotificationSubscriptionRequest) -> (r: NotificationSubscription)
        ensures
            exists|id: Seq<char>, t: Timestamp, s: StoredSubscription| {
                &&& id.len() == 32
                &&& subscribed(old(self)@, request, id, t, final(self)@, s)
                &&& r.id == s.id && r.endpoint == s.endpoint && r.device_name == s.device_name && r.created_at
                    == s.created_at
            },
    {
        let id = new_simple_id();
        let t = now();
        self.subscribe_at(request, id, t)
    }

    /// Drops every subscription with this id; says whether one was there.
    pub fn remove(&mut self, id: &str) -> (r: bool)
        ensures
            final(self)@ == old(self)@.filter(sub_id_not(id@)),
            r == (exists|j: int| 0 <= j < old(self)@.len() && #[trigger] old(self)@[j].id@ == id@),
    {
        let mut kept: Vec<StoredSubscription> = Vec::new();
        let mut old_subs: Vec<StoredSubscription> = Vec::new();
        std::mem::swap(&mut old_subs, &mut self.subscriptions);
        let ghost orig = old_subs@;
        let n = old_subs.len();
        let mut k: usize = 0;
        let mut found = false;
        while old_subs.len() > 0
            invariant
                k <= orig.len(),
                orig.len() == n,
                orig.len() == k + old_subs@.len(),
                old_subs@ == orig.skip(k as int),
                kept@ == orig.take(k as int).filter(sub_id_not(id@)),
                found == (exists|j: int| 0 <= j < k && #[trigger] orig[j].id@ == id@),
            decreases old_subs.len(),
        {
            let x = old_subs.remove(0);
            proof {
                reveal(Seq::filter);
                assert(x == orig[k as int]);
                assert(orig.take(k + 1).drop_last() == orig.take(k as int));
                assert(orig.take(k + 1).last() == x);
                assert(old_subs@ =~= orig.skip(k + 1));
            }
            if !str_eq(x.id.as_str(), id) {
                kept.push(x);
            } else {
                found = true;
            }
            k = k + 1;
        }
        assert(orig.take(k as int) == orig);
        self.subscriptions = kept;
        found
    }

    /// Handles `DELETE /notifications/subscriptions/{id}`: an empty id is a bad
    /// request, an unknown one is not found, and a known one is dropped.
    pub fn unsubscribe(&mut self, id: &str) -> (r: Result<(), ApiError>)
        ensures
            id@.len() == 0 ==> final(self)@ == old(self)@ && (r matches Err(e) && e.is(
                BAD_REQUEST,
                "subscription id is required"@,
            )),
            id@.len() > 0 ==> final(self)@ == old(self)@.filter(sub_id_not(id@)),
            id@.len() > 0 ==> (r is Ok <==> exists|j: int| 0 <= j < old(self)@.len() && #[trigger] old(self)@[j].id@ == id@),
            id@.len() > 0 && r is Err ==> (r matches Err(e) && e.is(NOT_FOUND, "notification subscription not found"@)),
    {
        if id.is_empty() {
            return Err(ApiError::bad_request(owned("subscription id is required")));
        }
        if !self.remove(id) {
            return Err(ApiError::not_found(owned("notification subscription not found")));
        }
        Ok(())
    }

    /// Drops the subscriptions the push services reported as gone.
    pub fn remove_expired(&mut self, expired: &Vec<String>)
        ensures
            final(self)@ == old(self)@.filter(sub_id_not_in(expired@.map_values(|s: String| s@))),
    {
        let ghost ids = expired@.map_values(|s: String| s@);
        let mut kept: Vec<StoredSubscription> = Vec::new();
        let mut old_subs: Vec<StoredSubscription> = Vec::new();
        std::mem::swap(&mut old_subs, &mut self.subscriptions);
        let ghost orig = old_subs@;
        let n = old_subs.len();
        let mut k: usize = 0;
        while old_subs.len() > 0
            invariant
                k <= orig.len(),
                orig.len() == n,
                orig.len() == k + old_subs@.len(),
                old_subs@ == orig.skip(k as int),
                ids == expired@.map_values(|s: String| s@),
                kept@ == orig.take(k as int).filter(sub_id_not_in(ids)),
            decreases old_subs.len(),
        {
            let x = old_subs.remove(0);
            proof {
                reveal(Seq::filter);
                assert(x == orig[k as int]);
                assert(orig.take(k + 1).drop_last() == orig.take(k as int));
                assert(orig.take(k + 1).last() == x);
                assert(old_subs@ =~= orig.skip(k + 1));
            }
            let mut listed = false;
            let mut j: usize = 0;
            while j < expired.len()
                invariant
                    j <= expired@.len(),
                    ids == expired@.map_values(|s: String| s@),
                    listed == (exists|m: int| 0 <= m < j && #[trigger] ids[m] == x.id@),
                decreases expired.len() - j,
            {
                if str_eq(expired[j].as_str(), x.id.as_str()) {
                    listed = true;
                    assert(ids[j as int] == x.id@);
                }
                j = j + 1;
            }
            proof {
                if ids.contains(x.id@) {
                    let m = choose|m: int| 0 <= m < ids.len() && ids[m] == x.id@;
                    assert(ids[m] == x.id@);
                }
            }
            if !listed {
                kept.push(x);
            }
            k = k + 1;
        }
        assert(orig.take(k as int) == orig);
        self.subscriptions = kept;
    }
}


/// No two subscriptions share an endpoint.
pub open spec fn unique_endpoints(s: Seq<StoredSubscription>) -> bool {
    forall|i: int, j: int| 0 <= i < j < s.len() ==> #[trigger] s[i].endpoint@ != #[trigger] s[j].endpoint@
}

/// Subscribing again from the same browser updates its subscription rather
/// than adding a second one: endpoints stay unique.
pub proof fn law_subscribe_keeps_endpoints_unique(
    pre: Seq<StoredSubscription>,
    req: NotificationSubscriptionRequest,
    id: Seq<char>,
    t: Timestamp,
    post: Seq<StoredSubscription>,
    r: StoredSubscription,
)
    requires
        unique_endpoints(pre),
        subscribed(pre, req, id, t, post, r),
    ensures
        unique_endpoints(post),
        post.len() <= pre.len() + 1,
        first_match(pre, endpoint_is(req.endpoint@)) is Some ==> post.len() == pre.len(),
{
    lemma_first_match(pre, endpoint_is(req.endpoint@));
    match first_match(pre, endpoint_is(req.endpoint@)) {
        Some(k) => {
            assert forall|i: int, j: int| 0 <= i < j < post.len() implies #[trigger] post[i].endpoint@ != #[trigger] post[j].endpoint@ by {
                assert(post[i].endpoint == pre[i].endpoint);
                assert(post[j].endpoint == pre[j].endpoint);
            }
        },
        None => {
            assert forall|i: int, j: int| 0 <= i < j < post.len() implies #[trigger] post[i].endpoint@ != #[trigger] post[j].endpoint@ by {
                assert(post[i] == pre[i]);
                if j < pre.len() {
                    assert(post[j] == pre[j]);
                } else {
                    assert(!endpoint_is(req.endpoint@)(pre[i]));
                }
            }
        },
    }
}

/// After a subscription is removed, none with its id is left, and every other one stays.
pub proof fn law_removed_subscription_is_gone(pre: Seq<StoredSubscription>, id: Seq<char>)
    ensures
        forall|j: int| 0 <= j < pre.filter(sub_id_not(id)).len() ==> #[trigger] pre.filter(sub_id_not(id))[j].id@ != id,
        forall|j: int| 0 <= j < pre.len() && pre[j].id@ != id ==> pre.filter(sub_id_not(id)).contains(#[trigger] pre[j]),
{
    broadcast use vstd::seq_lib::group_filter_ensures;
    assert forall|j: int| 0 <= j < pre.filter(sub_id_not(id)).len() implies #[trigger] pre.filter(sub_id_not(id))[j].id@ != id by {
        assert(sub_id_not(id)(pre.filter(sub_id_not(id))[j]));
    }
    assert forall|j: int| 0 <= j < pre.len() && pre[j].id@ != id implies pre.filter(sub_id_not(id)).contains(#[trigger] pre[j]) by {
        assert(sub_id_not(id)(pre[j]));
    }
}

/// Dropping expired subscriptions leaves none of the reported ids.
pub proof fn law_expired_subscriptions_are_dropped(pre: Seq<StoredSubscription>, ids: Seq<Seq<char>>)
    ensures
        forall|j: int| 0 <= j < pre.filter(sub_id_not_in(ids)).len() ==> !ids.contains(#[trigger] pre.filter(sub_id_not_in(ids))[j].id@),
{
    broadcast use vstd::seq_lib::group_filter_ensures;
    assert forall|j: int| 0 <= j < pre.filter(sub_id_not_in(ids)).len() implies !ids.contains(#[trigger] pre.filter(sub_id_not_in(ids))[j].id@) by {
        assert(sub_id_not_in(ids)(pre.filter(sub_id_not_in(ids))[j]));
    }
}

/// The tally of a broadcast: how many sends succeeded and failed, and the ids
/// whose subscriptions are gone, in the order the outcomes came.
pub open spec fn tally(outcomes: Seq<(String, SendOutcome)>) -> (nat, nat, Seq<Seq<char>>)
    decreases outcomes.len(),
{
    if outcomes.len() == 0 {
        (0, 0, Seq::empty())
    } else {
        let (d, f, e) = tally(outcomes.drop_last());
        match outcomes.last().1 {
            SendOutcome::Delivered => (d + 1, f, e),
            SendOutcome::Expired => (d, f, e.push(outcomes.last().0@)),
            SendOutcome::Failed(_) => (d, f + 1, e),
        }
    }
}

/// Every outcome is counted once: delivered, failed and expired add up to the number of outcomes.
pub proof fn law_tally_counts_every_outcome(outcomes: Seq<(String, SendOutcome)>)
    ensures
        tally(outcomes).0 + tally(outcomes).1 + tally(outcomes).2.len() == outcomes.len(),
    decreases outcomes.len(),
{
    if outcomes.len() > 0 {
        law_tally_counts_every_outcome(outcomes.drop_last());
    }
}

/// Sums up a broadcast to `subscriptions` subscribers: the counts of each
/// outcome, and the ids of the subscriptions to drop.
pub fn summarize_broadcast(
    notification_id: String,
    subscriptions: usize,
    outcomes: &Vec<(String, SendOutcome)>,
) -> (r: (NotificationDeliveryResponse, Vec<String>))
    ensures
        r.0.id == notification_id,
        r.0.subscriptions == subscriptions,
        r.0.delivered == tally(outcomes@).0,
        r.0.failed == tally(outcomes@).1,
        r.0.removed == tally(outcomes@).2.len(),
        r.1@.map_values(|s: String| s@) == tally(outcomes@).2,
{
    let mut delivered: usize = 0;
    let mut failed: usize = 0;
    let mut expired: Vec<String> = Vec::new();
    let mut i: usize = 0;
    while i < outcomes.len()
        invariant
            i <= outcomes@.len(),
            delivered == tally(outcomes@.take(i as int)).0,
            failed == tally(outcomes@.take(i as int)).1,
            expired@.map_values(|s: String| s@) == tally(outcomes@.take(i as int)).2,
        decreases outcomes.len() - i,
    {
        proof {
            assert(outcomes@.take(i + 1).drop_last() == outcomes@.take(i as int));
            assert(outcomes@.take(i + 1).last() == outcomes@[i as int]);
            law_tally_counts_every_outcome(outcomes@.take(i as int));
        }
        match &outcomes[i].1 {
            SendOutcome::Delivered => {
                delivered = delivered + 1;
            },
            SendOutcome::Expired => {
                let ghost before = expired@;
                expired.push(outcomes[i].0.clone());
                assert(expired@.map_values(|s: String| s@) =~= before.map_values(|s: String| s@).push(outcomes@[i as int].0@));
            },
            SendOutcome::Failed(_) => {
                failed = failed + 1;
            },
        }
        i = i + 1;
    }
    assert(outcomes@.take(outcomes@.len() as int) == outcomes@);
    let removed = expired.len();
    (NotificationDeliveryResponse { id: notification_id, subscriptions, delivered, failed, removed }, expired)
}

/// After a subscribe, the first stored subscription for the request's
/// endpoint is the answer, carrying the request's keys and device name,
/// whether the endpoint was new or already there; the list grows by one only
/// for a new endpoint.
pub proof fn law_subscribe_stores_request_keys(
    pre: Seq<StoredSubscription>,
    req: NotificationSubscriptionRequest,
    id: Seq<char>,
    t: Timestamp,
    post: Seq<StoredSubscription>,
    r: StoredSubscription,
)
    requires
        subscribed(pre, req, id, t, post, r),
    ensures
        first_match(post, endpoint_is(req.endpoint@)) matches Some(j) && post[j] == r && r.keys == req.keys
            && r.device_name == req.device_name && r.endpoint@ == req.endpoint@,
        post.len() == pre.len() + (if first_match(pre, endpoint_is(req.endpoint@)) is Some { 0int } else { 1int }),
{
    let p = endpoint_is(req.endpoint@);
    lemma_first_match(pre, p);
    match first_match(pre, p) {
        Some(i) => {
            assert forall|j: int| 0 <= j < i implies !p(#[trigger] post[j]) by {
                assert(post[j] == pre[j]);
            }
            assert(post[i] == r);
            assert(p(pre[i]));
            lemma_first_match_at(post, p, i);
        },
        None => {
            lemma_first_match_push(pre, r, p);
        },
    }
}

} // verus!

//! The lost-and-found mock service: users, found items and claims kept in
//! memory, with the lookups and updates its endpoints perform.

use vstd::prelude::*;
use crate::error::{ApiError, BAD_REQUEST, NOT_FOUND, UNAUTHORIZED};
use crate::ids::{new_hyphenated_id, uuid_hyphenated_text};
use crate::outside::{now, Timestamp};
use crate::seqs::{first_match, lemma_first_match, lemma_first_match_at, lemma_first_match_push};
use crate::text::{blank, concat2, concat3, decimal, eq_ignore_ascii_case, eq_ignore_case, is_blank, lower_all, owned, u64_to_string};

verus! {

/// Whether an item is still shown as found or already handed back.
#[derive(Debug, Clone, Copy, PartialEq, Eq, Structural)]
pub enum LostAndFoundItemStatus {
    Visible,
    Returned,
}

/// Where a claim on an item stands.
#[derive(Debug, Clone, Copy, PartialEq, Eq, Structural)]
pub enum LostAndFoundClaimStatus {
    Pending,
    Approved,
}

/// A user who can log in and claim items.
#[derive(Debug)]
pub struct LostAndFoundUser {
    pub id: u64,
    pub name: String,
    pub email: String,
}

impl Clone for LostAndFoundUser {
    fn clone(&self) -> (r: Self)
        ensures
            r == *self,
    {
        LostAndFoundUser { id: self.id, name: self.name.clone(), email: self.email.clone() }
    }
}

/// A found item on the board.
#[derive(Debug)]
pub struct LostAndFoundItem {
    pub id: u64,
    pub title: String,
    pub description: String,
    pub category: String,
    pub found_location: String,
    pub found_date: String,
    pub found_time: String,
    pub image_url: String,
    pub status: LostAndFoundItemStatus,
    pub created_by_user_id: u64,
    pub created_at: Timestamp,
}

impl Clone for LostAndFoundItem {
    fn clone(&self) -> (r: Self)
        ensures
            r == *self,
    {
        LostAndFoundItem {
            id: self.id,
            title: self.title.clone(),
            description: self.description.clone(),
            category: self.category.clone(),
            found_location: self.found_location.clone(),
            found_date: self.found_date.clone(),
            found_time: self.found_time.clone(),
            image_url: self.image_url.clone(),
            status: self.status,
            created_by_user_id: self.created_by_user_id,
            created_at: self.created_at,
        }
    }
}

/// A user's claim that an item is theirs.
#[derive(Debug, Clone, Copy)]
pub struct LostAndFoundClaim {
    pub id: u64,
    pub item_id: u64,
    pub claimer_user_id: u64,
    pub status: LostAndFoundClaimStatus,
    pub created_at: Timestamp,
}

/// The body of a request that reports a found item.
#[derive(Debug)]
pub struct LostAndFoundCreateItemRequest {
    pub title: String,
    pub description: Option<String>,
    pub category: String,
    pub found_location: String,
    pub found_date: String,
    pub found_time: String,
    pub image_url: Option<String>,
    pub created_by_user_id: Option<u64>,
}

/// The query of a request that lists items.
#[derive(Debug)]
pub struct LostAndFoundItemFilter {
    pub status: Option<LostAndFoundItemStatus>,
    pub category: Option<String>,
}

/// The body of a request that claims an item.
#[derive(Debug, Clone, Copy)]
pub struct LostAndFoundCreateClaimRequest {
    pub item_id: u64,
    pub claimer_user_id: u64,
}

/// The body of a login request.
#[derive(Debug)]
pub struct LostAndFoundLoginRequest {
    pub email: String,
    pub password: String,
}

/// The answer to a successful login: a mock token and the user.
#[derive(Debug)]
pub struct LostAndFoundLoginResponse {
    pub token: String,
    pub user: LostAndFoundUser,
}

/// The answer of the service's own health endpoint.
#[derive(Debug)]
pub struct LostAndFoundHealthResponse {
    pub ok: bool,
    pub service: String,
}

/// The abstract state of the service.
pub struct LostAndFoundView {
    pub users: Seq<LostAndFoundUser>,
    pub items: Seq<LostAndFoundItem>,
    pub claims: Seq<LostAndFoundClaim>,
    pub next_item_id: u64,
    pub next_claim_id: u64,
}

/// The in-memory state of the service.
#[derive(Debug)]
pub struct LostAndFoundStore {
    users: Vec<LostAndFoundUser>,
    items: Vec<LostAndFoundItem>,
    claims: Vec<LostAndFoundClaim>,
    next_item_id: u64,
    next_claim_id: u64,
}

impl View for LostAndFoundStore {
    type V = LostAndFoundView;

    closed spec fn view(&self) -> LostAndFoundView {
        LostAndFoundView {
            users: self.users@,
            items: self.items@,
            claims: self.claims@,
            next_item_id: self.next_item_id,
            next_claim_id: self.next_claim_id,
        }
    }
}

/// The description an item gets when the report gives none.
pub open spec fn default_description() -> Seq<char> {
    "Keine Beschreibung angegeben"@
}

/// The picture an item gets when the report gives none.
pub open spec fn default_image_url() -> Seq<char> {
    "https://images.unsplash.com/photo-1542291026-7eec264c27ff?w=800&auto=format&fit=crop"@
}

/// The predicate "has this id" on items.
pub open spec fn item_id_is(id: u64) -> spec_fn(LostAndFoundItem) -> bool {
    |it: LostAndFoundItem| it.id == id
}

/// The predicate "has this e-mail address, ignoring ASCII case" on users.
pub open spec fn user_email_is(email: Seq<char>) -> spec_fn(LostAndFoundUser) -> bool {
    |u: LostAndFoundUser| eq_ignore_case(u.email@, email)
}

/// Whether an item passes a list filter: the status, where given, is the item's,
/// and the category, where given, is the item's up to ASCII case.
pub open spec fn item_matches(item: LostAndFoundItem, filter: LostAndFoundItemFilter) -> bool {
    &&& (filter.status matches Some(s) ==> item.status == s)
    &&& (filter.category matches Some(c) ==> eq_ignore_case(item.category@, c@))
}

/// The predicate "passes this filter" on items.
pub open spec fn item_filter_pred(filter: LostAndFoundItemFilter) -> spec_fn(LostAndFoundItem) -> bool {
    |it: LostAndFoundItem| item_matches(it, filter)
}

/// A report of a found item is accepted when its title and place are not blank.
pub open spec fn create_item_valid(req: LostAndFoundCreateItemRequest) -> bool {
    !blank(req.title@) && !blank(req.found_location@)
}

/// `item` is what a valid report `req` becomes under the id `id` at time `t`:
/// the report's fields, the defaults where it leaves one out, status visible.
pub open spec fn is_new_item(
    item: LostAndFoundItem,
    req: LostAndFoundCreateItemRequest,
    id: u64,
    t: Timestamp,
) -> bool {
    &&& item.id == id
    &&& item.title == req.title
    &&& (match req.description {
        Some(d) => item.description == d,
        None => item.description@ == default_description(),
    })
    &&& item.category == req.category
    &&& item.found_location == req.found_location
    &&& item.found_date == req.found_date
    &&& item.found_time == req.found_time
    &&& (match req.image_url {
        Some(u) => item.image_url == u,
        None => item.image_url@ == default_image_url(),
    })
    &&& item.status == LostAndFoundItemStatus::Visible
    &&& item.created_by_user_id == (match req.created_by_user_id {
        Some(u) => u,
        None => 1,
    })
    &&& item.created_at == t
}

/// The message of the answer to a lookup of an unknown item.
pub open spec fn item_not_found_message(id: u64) -> Seq<char> {
    "item "@ + decimal(id as nat) + " not found"@
}

/// The first of `s` that satisfies `p`, if any.
pub open spec fn first_of<T>(s: Seq<T>, p: spec_fn(T) -> bool) -> Option<T> {
    match first_match(s, p) {
        Some(i) => Some(s[i]),
        None => None,
    }
}

impl LostAndFoundView {
    /// Ids are unique and below the next ones to hand out.
    pub open spec fn wf(self) -> bool {
        &&& forall|i: int| 0 <= i < self.items.len() ==> #[trigger] self.items[i].id < self.next_item_id
        &&& forall|i: int, j: int|
            0 <= i < j < self.items.len() ==> #[trigger] self.items[i].id != #[trigger] self.items[j].id
        &&& forall|i: int| 0 <= i < self.claims.len() ==> #[trigger] self.claims[i].id < self.next_claim_id
        &&& forall|i: int, j: int|
            0 <= i < j < self.claims.len() ==> #[trigger] self.claims[i].id != #[trigger] self.claims[j].id
    }

    /// The item with this id, as `GET /lostandfound/items/{id}` finds it.
    pub open spec fn lookup_item(self, id: u64) -> Option<LostAndFoundItem> {
        first_of(self.items, item_id_is(id))
    }

    /// The items that pass a filter, in order.
    pub open spec fn filtered(self, filter: LostAndFoundItemFilter) -> Seq<LostAndFoundItem> {
        self.items.filter(item_filter_pred(filter))
    }

    /// Whether an item with this id exists.
    pub open spec fn has_item(self, id: u64) -> bool {
        exists|i: int| 0 <= i < self.items.len() && #[trigger] self.items[i].id == id
    }

    /// Whether a user with this id exists.
    pub open spec fn has_user(self, id: u64) -> bool {
        exists|i: int| 0 <= i < self.users.len() && #[trigger] self.users[i].id == id
    }

    /// `post` is `pre` with `item` reported: appended, and the next item id moved on.
    pub open spec fn item_created(self, req: LostAndFoundCreateItemRequest, t: Timestamp, post: Self, item: LostAndFoundItem) -> bool {
        &&& is_new_item(item, req, self.next_item_id, t)
        &&& post.items == self.items.push(item)
        &&& post.next_item_id == (if self.next_item_id == u64::MAX { u64::MAX } else { (self.next_item_id + 1) as u64 })
        &&& post.users == self.users
        &&& post.claims == self.claims
        &&& post.next_claim_id == self.next_claim_id
    }

    /// `post` is `pre` with the first item of id `id` given status `status`; `item` is that item afterwards.
    pub open spec fn status_updated(self, id: u64, status: LostAndFoundItemStatus, post: Self, item: LostAndFoundItem) -> bool {
        &&& first_match(self.items, item_id_is(id)) matches Some(i)
            && item == (LostAndFoundItem { status, ..self.items[i] })
            && post.items == self.items.update(i, item)
        &&& post.users == self.users
        &&& post.claims == self.claims
        &&& post.next_item_id == self.next_item_id
        &&& post.next_claim_id == self.next_claim_id
    }

    /// `post` is `pre` with the pending claim `claim` for `req` filed at time `t`.
    pub open spec fn claim_created(self, req: LostAndFoundCreateClaimRequest, t: Timestamp, post: Self, claim: LostAndFoundClaim) -> bool {
        &&& claim == (LostAndFoundClaim {
            id: self.next_claim_id,
            item_id: req.item_id,
            claimer_user_id: req.claimer_user_id,
            status: LostAndFoundClaimStatus::Pending,
            created_at: t,
        })
        &&& post.claims == self.claims.push(claim)
        &&& post.next_claim_id == (if self.next_claim_id == u64::MAX { u64::MAX } else { (self.next_claim_id + 1) as u64 })
        &&& post.users == self.users
        &&& post.items == self.items
        &&& post.next_item_id == self.next_item_id
    }
}


/// The fields of an item other than its time stamp, as views.
pub open spec fn item_fields(it: LostAndFoundItem) -> (u64, Seq<char>, Seq<char>, Seq<char>, Seq<char>, Seq<char>, Seq<char>, Seq<char>, LostAndFoundItemStatus, u64) {
    (it.id, it.title@, it.description@, it.category@, it.found_location@, it.found_date@, it.found_time@, it.image_url@, it.status, it.created_by_user_id)
}

/// The fields, other than the time stamp, of the `k`-th item the service starts with.
pub open spec fn seed_item_fields(k: int) -> (u64, Seq<char>, Seq<char>, Seq<char>, Seq<char>, Seq<char>, Seq<char>, Seq<char>, LostAndFoundItemStatus, u64) {
    if k == 0 {
        (1u64, "Schwarze Trinkflasche"@, "Matte Flasche mit HdM-Aufkleber am Deckel."@, "Accessoires"@, "Gebaeude A / Raum 1.14"@, "2026-04-24"@, "11:30"@, "https://images.unsplash.com/photo-1602143407151-7111542de6e8?w=800&auto=format&fit=crop"@, LostAndFoundItemStatus::Visible, 1u64)
    } else if k == 1 {
        (2u64, "AirPods Ladecase"@, "Weisses Apple-Ladecase ohne Kopfhoerer."@, "Elektronik"@, "Bibliothek / 2. OG"@, "2026-04-25"@, "09:10"@, "https://images.unsplash.com/photo-1588156979435-379b9d802b0c?w=800&auto=format&fit=crop"@, LostAndFoundItemStatus::Visible, 2u64)
    } else if k == 2 {
        (3u64, "Blauer Hoodie"@, "Dunkelblauer Hoodie Groesse M mit weissem Rueckenprint."@, "Kleidung"@, "Mensa"@, "2026-04-22"@, "14:40"@, "https://images.unsplash.com/photo-1576566588028-4147f3842f27?w=800&auto=format&fit=crop"@, LostAndFoundItemStatus::Returned, 1u64)
    } else if k == 3 {
        (4u64, "Studentenausweis"@, "HdM-Ausweis auf den Namen Mia Koch."@, "Dokumente"@, "Gebaeude C / Eingang"@, "2026-04-21"@, "08:05"@, "https://images.unsplash.com/photo-1589330694653-ded6df03f754?w=800&auto=format&fit=crop"@, LostAndFoundItemStatus::Visible, 2u64)
    } else if k == 4 {
        (5u64, "Silberne Halskette"@, "Feine Kette mit kleinem Herzanhaenger."@, "Schmuck"@, "Sporthalle / Umkleide"@, "2026-04-20"@, "18:20"@, "https://images.unsplash.com/photo-1617038220319-276d3cfab638?w=800&auto=format&fit=crop"@, LostAndFoundItemStatus::Visible, 1u64)
    } else if k == 5 {
        (6u64, "Grauer Rucksack"@, "Rucksack mit rotem Schluesselanhaenger."@, "Sonstige"@, "Hoersaal 2"@, "2026-04-19"@, "12:55"@, "https://images.unsplash.com/photo-1553062407-98eeb64c6a62?w=800&auto=format&fit=crop"@, LostAndFoundItemStatus::Visible, 2u64)
    } else if k == 6 {
        (7u64, "Schwarzes Notizbuch"@, "A5 Notizbuch mit karierten Seiten und Gummiband."@, "Dokumente"@, "Seminarraum 4.02"@, "2026-04-18"@, "10:15"@, "https://images.unsplash.com/photo-1531346878377-a5be20888e57?w=800&auto=format&fit=crop"@, LostAndFoundItemStatus::Visible, 1u64)
    } else {
        (8u64, "Rote Powerbank"@, "10.000 mAh Powerbank mit USB-C Kabel."@, "Elektronik"@, "Campus-Lounge"@, "2026-04-17"@, "16:35"@, "https://images.unsplash.com/photo-1609592806787-3d9cbbf7fd16?w=800&auto=format&fit=crop"@, LostAndFoundItemStatus::Returned, 2u64)
    }
}

/// The state the service starts in: two users, eight items, one approved claim.
pub open spec fn is_seed(v: LostAndFoundView) -> bool {
    &&& v.users.len() == 2
    &&& v.users[0].id == 1 && v.users[0].name@ == "Lena Weber"@ && v.users[0].email@ == "lena@hdm-stuttgart.de"@
    &&& v.users[1].id == 2 && v.users[1].name@ == "Tom Schneider"@ && v.users[1].email@ == "tom@hdm-stuttgart.de"@
    &&& v.items.len() == 8
    &&& forall|k: int| 0 <= k < 8 ==> #[trigger] item_fields(v.items[k]) == seed_item_fields(k)
    &&& v.claims.len() == 1
    &&& v.claims[0].id == 1 && v.claims[0].item_id == 3 && v.claims[0].claimer_user_id == 2
        && v.claims[0].status == LostAndFoundClaimStatus::Approved
    &&& v.next_item_id == 9
    &&& v.next_claim_id == 2
}


fn seed_item(
    id: u64,
    title: &str,
    description: &str,
    category: &str,
    found_location: &str,
    found_date: &str,
    found_time: &str,
    image_url: &str,
    status: LostAndFoundItemStatus,
    created_by_user_id: u64,
) -> (it: LostAndFoundItem)
    ensures
        item_fields(it) == (id, title@, description@, category@, found_location@, found_date@, found_time@, image_url@, status, created_by_user_id),
{
    LostAndFoundItem {
        id,
        title: owned(title),
        description: owned(description),
        category: owned(category),
        found_location: owned(found_location),
        found_date: owned(found_date),
        found_time: owned(found_time),
        image_url: owned(image_url),
        status,
        created_by_user_id,
        created_at: now(),
    }
}

impl LostAndFoundStore {
    /// The store the service starts with, every record stamped with the time it is made.
    pub fn seeded() -> (s: Self)
        ensures
            is_seed(s@),
            s@.wf(),
    {
        let mut users: Vec<LostAndFoundUser> = Vec::new();
        users.push(LostAndFoundUser { id: 1, name: owned("Lena Weber"), email: owned("lena@hdm-stuttgart.de") });
        users.push(LostAndFoundUser { id: 2, name: owned("Tom Schneider"), email: owned("tom@hdm-stuttgart.de") });
        let mut items: Vec<LostAndFoundItem> = Vec::new();
        items.push(seed_item(1, "Schwarze Trinkflasche", "Matte Flasche mit HdM-Aufkleber am Deckel.", "Accessoires", "Gebaeude A / Raum 1.14", "2026-04-24", "11:30", "https://images.unsplash.com/photo-1602143407151-7111542de6e8?w=800&auto=format&fit=crop", LostAndFoundItemStatus::Visible, 1));
        items.push(seed_item(2, "AirPods Ladecase", "Weisses Apple-Ladecase ohne Kopfhoerer.", "Elektronik", "Bibliothek / 2. OG", "2026-04-25", "09:10", "https://images.unsplash.com/photo-1588156979435-379b9d802b0c?w=800&auto=format&fit=crop", LostAndFoundItemStatus::Visible, 2));
        items.push(seed_item(3, "Blauer Hoodie", "Dunkelblauer Hoodie Groesse M mit weissem Rueckenprint.", "Kleidung", "Mensa", "2026-04-22", "14:40", "https://images.unsplash.com/photo-1576566588028-4147f3842f27?w=800&auto=format&fit=crop", LostAndFoundItemStatus::Returned, 1));
        items.push(seed_item(4, "Studentenausweis", "HdM-Ausweis auf den Namen Mia Koch.", "Dokumente", "Gebaeude C / Eingang", "2026-04-21", "08:05", "https://images.unsplash.com/photo-1589330694653-ded6df03f754?w=800&auto=format&fit=crop", LostAndFoundItemStatus::Visible, 2));
        items.push(seed_item(5, "Silberne Halskette", "Feine Kette mit kleinem Herzanhaenger.", "Schmuck", "Sporthalle / Umkleide", "2026-04-20", "18:20", "https://images.unsplash.com/photo-1617038220319-276d3cfab638?w=800&auto=format&fit=crop", LostAndFoundItemStatus::Visible, 1));
        items.push(seed_item(6, "Grauer Rucksack", "Rucksack mit rotem Schluesselanhaenger.", "Sonstige", "Hoersaal 2", "2026-04-19", "12:55", "https://images.unsplash.com/photo-1553062407-98eeb64c6a62?w=800&auto=format&fit=crop", LostAndFoundItemStatus::Visible, 2));
        items.push(seed_item(7, "Schwarzes Notizbuch", "A5 Notizbuch mit karierten Seiten und Gummiband.", "Dokumente", "Seminarraum 4.02", "2026-04-18", "10:15", "https://images.unsplash.com/photo-1531346878377-a5be20888e57?w=800&auto=format&fit=crop", LostAndFoundItemStatus::Visible, 1));
        items.push(seed_item(8, "Rote Powerbank", "10.000 mAh Powerbank mit USB-C Kabel.", "Elektronik", "Campus-Lounge", "2026-04-17", "16:35", "https://images.unsplash.com/photo-1609592806787-3d9cbbf7fd16?w=800&auto=format&fit=crop", LostAndFoundItemStatus::Returned, 2));
        let mut claims: Vec<LostAndFoundClaim> = Vec::new();
        claims.push(LostAndFoundClaim {
            id: 1,
            item_id: 3,
            claimer_user_id: 2,
            status: LostAndFoundClaimStatus::Approved,
            created_at: now(),
        });
        let s = LostAndFoundStore { users, items, claims, next_item_id: 9, next_claim_id: 2 };
        proof {
            assert forall|k: int| 0 <= k < 8 implies #[trigger] item_fields(s@.items[k]) == seed_item_fields(k) by {
                if k == 0 {} else if k == 1 {} else if k == 2 {} else if k == 3 {} else if k == 4 {} else if k == 5 {} else if k == 6 {} else {}
            }
            assert forall|i: int| 0 <= i < s@.items.len() implies #[trigger] s@.items[i].id < s@.next_item_id by {
                assert(item_fields(s@.items[i]) == seed_item_fields(i));
            }
            assert forall|i: int, j: int| 0 <= i < j < s@.items.len() implies #[trigger] s@.items[i].id != #[trigger] s@.items[j].id by {
                assert(item_fields(s@.items[i]) == seed_item_fields(i));
                assert(item_fields(s@.items[j]) == seed_item_fields(j));
            }
        }
        s
    }
}


/// A reported item is found again by its id: after a report is filed in a
/// well-formed store, looking up the new item's id gives that item.
pub proof fn law_created_item_is_found(
    pre: LostAndFoundView,
    req: LostAndFoundCreateItemRequest,
    t: Timestamp,
    post: LostAndFoundView,
    item: LostAndFoundItem,
)
    requires
        pre.wf(),
        pre.item_created(req, t, post, item),
    ensures
        post.lookup_item(item.id) == Some(item),
{
    let p = item_id_is(item.id);
    lemma_first_match(pre.items, p);
    if let Some(i) = first_match(pre.items, p) {
        assert(pre.items[i].id < pre.next_item_id);
    }
    lemma_first_match_push(pre.items, item, p);
}

/// Filing a report keeps ids unique and below the next id, as long as the
/// next id has not reached the largest value (from there on ids repeat).
pub proof fn law_create_item_keeps_wf(
    pre: LostAndFoundView,
    req: LostAndFoundCreateItemRequest,
    t: Timestamp,
    post: LostAndFoundView,
    item: LostAndFoundItem,
)
    requires
        pre.wf(),
        pre.next_item_id < u64::MAX,
        pre.item_created(req, t, post, item),
    ensures
        post.wf(),
{
    assert forall|i: int| 0 <= i < post.items.len() implies #[trigger] post.items[i].id < post.next_item_id by {
        if i < pre.items.len() {
            assert(post.items[i] == pre.items[i]);
        }
    }
    assert forall|i: int, j: int| 0 <= i < j < post.items.len() implies #[trigger] post.items[i].id != #[trigger] post.items[j].id by {
        assert(post.items[i] == pre.items[i]);
        if j < pre.items.len() {
            assert(post.items[j] == pre.items[j]);
        } else {
            assert(pre.items[i].id < pre.next_item_id);
        }
    }
}

/// A status change is seen by the next lookup of the same id, and the item
/// keeps everything but its status.
pub proof fn law_status_update_is_seen(
    pre: LostAndFoundView,
    id: u64,
    status: LostAndFoundItemStatus,
    post: LostAndFoundView,
    item: LostAndFoundItem,
)
    requires
        pre.status_updated(id, status, post, item),
    ensures
        post.lookup_item(id) == Some(item),
        item.status == status,
        pre.lookup_item(id) matches Some(before) && item == (LostAndFoundItem { status, ..before }),
{
    let p = item_id_is(id);
    lemma_first_match(pre.items, p);
    let i = first_match(pre.items, p)->0;
    assert forall|j: int| 0 <= j < i implies !p(#[trigger] post.items[j]) by {
        assert(post.items[j] == pre.items[j]);
        assert(!p(pre.items[j]));
    }
    lemma_first_match_at(post.items, p, i);
}

/// A status change keeps the store well formed.
pub proof fn law_status_update_keeps_wf(
    pre: LostAndFoundView,
    id: u64,
    status: LostAndFoundItemStatus,
    post: LostAndFoundView,
    item: LostAndFoundItem,
)
    requires
        pre.wf(),
        pre.status_updated(id, status, post, item),
    ensures
        post.wf(),
{
    lemma_first_match(pre.items, item_id_is(id));
    let k = first_match(pre.items, item_id_is(id))->0;
    assert forall|i: int| 0 <= i < post.items.len() implies #[trigger] post.items[i].id == pre.items[i].id by {}
    assert forall|i: int| 0 <= i < post.items.len() implies #[trigger] post.items[i].id < post.next_item_id by {
        assert(post.items[i].id == pre.items[i].id);
    }
    assert forall|i: int, j: int| 0 <= i < j < post.items.len() implies #[trigger] post.items[i].id != #[trigger] post.items[j].id by {
        assert(post.items[i].id == pre.items[i].id);
        assert(post.items[j].id == pre.items[j].id);
    }
}

/// Filing a claim keeps the store well formed, as long as the next claim id
/// has not reached the largest value.
pub proof fn law_create_claim_keeps_wf(
    pre: LostAndFoundView,
    req: LostAndFoundCreateClaimRequest,
    t: Timestamp,
    post: LostAndFoundView,
    claim: LostAndFoundClaim,
)
    requires
        pre.wf(),
        pre.next_claim_id < u64::MAX,
        pre.claim_created(req, t, post, claim),
    ensures
        post.wf(),
{
    assert forall|i: int| 0 <= i < post.claims.len() implies #[trigger] post.claims[i].id < post.next_claim_id by {
        if i < pre.claims.len() {
            assert(post.claims[i] == pre.claims[i]);
        }
    }
    assert forall|i: int, j: int| 0 <= i < j < post.claims.len() implies #[trigger] post.claims[i].id != #[trigger] post.claims[j].id by {
        assert(post.claims[i] == pre.claims[i]);
        if j < pre.claims.len() {
            assert(post.claims[j] == pre.claims[j]);
        } else {
            assert(pre.claims[i].id < pre.next_claim_id);
        }
    }
}

proof fn lemma_filter_all<T>(s: Seq<T>, p: spec_fn(T) -> bool)
    requires
        forall|i: int| 0 <= i < s.len() ==> p(#[trigger] s[i]),
    ensures
        s.filter(p) == s,
    decreases s.len(),
{
    reveal(Seq::filter);
    if s.len() > 0 {
        assert forall|i: int| 0 <= i < s.drop_last().len() implies p(#[trigger] s.drop_last()[i]) by {
            assert(s.drop_last()[i] == s[i]);
        }
        lemma_filter_all(s.drop_last(), p);
        assert(p(s[s.len() - 1]));
        assert(s.drop_last().push(s.last()) == s);
    }
}

/// A filter that names neither status nor category lists every item, in order.
pub proof fn law_empty_filter_lists_all(v: LostAndFoundView, filter: LostAndFoundItemFilter)
    requires
        filter.status is None,
        filter.category is None,
    ensures
        v.filtered(filter) == v.items,
{
    lemma_filter_all(v.items, item_filter_pred(filter));
}

/// The filter on category ignores ASCII case in either direction.
pub proof fn law_category_filter_ignores_case(item: LostAndFoundItem, filter: LostAndFoundItemFilter)
    requires
        filter.status is None,
        filter.category matches Some(c) && lower_all(c@) == lower_all(item.category@),
    ensures
        item_matches(item, filter),
{
}

/// Whether a report of a found item is complete enough to accept.
pub fn validate_create_item_request(request: &LostAndFoundCreateItemRequest) -> (r: Result<(), ApiError>)
    ensures
        r is Ok <==> create_item_valid(*request),
        r matches Err(e) ==> e.is(BAD_REQUEST, "title and found_location are required"@),
{
    if is_blank(request.title.as_str()) || is_blank(request.found_location.as_str()) {
        return Err(ApiError::bad_request(owned("title and found_location are required")));
    }
    Ok(())
}

/// Whether an item passes a list filter.
pub fn matches_item_filter(item: &LostAndFoundItem, filter: &LostAndFoundItemFilter) -> (r: bool)
    ensures
        r == item_matches(*item, *filter),
{
    if let Some(status) = &filter.status {
        if item.status != *status {
            return false;
        }
    }
    if let Some(category) = &filter.category {
        if !eq_ignore_ascii_case(item.category.as_str(), category.as_str()) {
            return false;
        }
    }
    true
}

/// The categories a found item can be filed under.
pub fn list_categories() -> (r: Vec<String>)
    ensures
        r@.len() == 6,
        r@[0]@ == "Elektronik"@,
        r@[1]@ == "Accessoires"@,
        r@[2]@ == "Schmuck"@,
        r@[3]@ == "Kleidung"@,
        r@[4]@ == "Dokumente"@,
        r@[5]@ == "Sonstige"@,
{
    let mut r: Vec<String> = Vec::new();
    r.push(owned("Elektronik"));
    r.push(owned("Accessoires"));
    r.push(owned("Schmuck"));
    r.push(owned("Kleidung"));
    r.push(owned("Dokumente"));
    r.push(owned("Sonstige"));
    r
}

/// The answer of `GET /lostandfound/health`.
pub fn health() -> (r: LostAndFoundHealthResponse)
    ensures
        r.ok,
        r.service@ == "lostandfound-mock-api"@,
{
    LostAndFoundHealthResponse { ok: true, service: owned("lostandfound-mock-api") }
}

fn item_not_found(id: u64) -> (e: ApiError)
    ensures
        e.is(NOT_FOUND, item_not_found_message(id)),
{
    let digits = u64_to_string(id);
    ApiError::not_found(concat3("item ", digits.as_str(), " not found"))
}

impl LostAndFoundStore {
    /// The index of the first item with id `id`, if any.
    fn find_item_index(&self, id: u64) -> (r: Option<usize>)
        ensures
            r matches Some(i) ==> first_match(self@.items, item_id_is(id)) == Some(i as int) && i < self@.items.len(),
            r is None ==> first_match(self@.items, item_id_is(id)) is None,
    {
        let mut i: usize = 0;
        while i < self.items.len()
            invariant
                i <= self.items@.len(),
                forall|j: int| 0 <= j < i ==> !(#[trigger] item_id_is(id)(self.items@[j])),
            decreases self.items.len() - i,
        {
            if self.items[i].id == id {
                proof {
                    lemma_first_match_at(self@.items, item_id_is(id), i as int);
                }
                return Some(i);
            }
            i = i + 1;
        }
        proof {
            lemma_first_match_at(self@.items, item_id_is(id), i as int);
        }
        None
    }

    /// Logs a user in: the password must not be blank, and the e-mail address must
    /// be a user's, ignoring ASCII case. The token is `mock-token-` and a fresh UUID.
    pub fn login(&self, request: &LostAndFoundLoginRequest) -> (r: Result<LostAndFoundLoginResponse, ApiError>)
        ensures
            blank(request.password@) ==> (r matches Err(e) && e.is(BAD_REQUEST, "password must not be empty"@)),
            !blank(request.password@) && first_of(self@.users, user_email_is(request.email@)) is None
                ==> (r matches Err(e) && e.is(UNAUTHORIZED, "invalid email or password"@)),
            !blank(request.password@) ==> (first_of(self@.users, user_email_is(request.email@)) matches Some(u)
                ==> (r matches Ok(resp) && resp.user == u && exists|b: Seq<u8>|
                    b.len() == 16 && resp.token@ == "mock-token-"@ + uuid_hyphenated_text(b))),
    {
        if is_blank(request.password.as_str()) {
            return Err(ApiError::bad_request(owned("password must not be empty")));
        }
        let mut i: usize = 0;
        while i < self.users.len()
            invariant
                i <= self.users@.len(),
                !blank(request.password@),
                forall|j: int| 0 <= j < i ==> !(#[trigger] user_email_is(request.email@)(self.users@[j])),
            decreases self.users.len() - i,
        {
            if eq_ignore_ascii_case(self.users[i].email.as_str(), request.email.as_str()) {
                proof {
                    lemma_first_match_at(self@.users, user_email_is(request.email@), i as int);
                }
                let user = self.users[i].clone();
                let id = new_hyphenated_id();
                let token = concat2("mock-token-", id.as_str());
                return Ok(LostAndFoundLoginResponse { token, user });
            }
            i = i + 1;
        }
        proof {
            lemma_first_match_at(self@.users, user_email_is(request.email@), i as int);
        }
        Err(ApiError::new(UNAUTHORIZED, owned("invalid email or password")))
    }

    /// The items that pass the filter, in the order they were reported.
    pub fn list_items(&self, filter: &LostAndFoundItemFilter) -> (r: Vec<LostAndFoundItem>)
        ensures
            r@ == self@.filtered(*filter),
    {
        let mut out: Vec<LostAndFoundItem> = Vec::new();
        let mut i: usize = 0;
        while i < self.items.len()
            invariant
                i <= self.items@.len(),
                out@ == self.items@.take(i as int).filter(item_filter_pred(*filter)),
            decreases self.items.len() - i,
        {
            proof {
                reveal(Seq::filter);
                assert(self.items@.take(i + 1).drop_last() == self.items@.take(i as int));
                assert(self.items@.take(i + 1).last() == self.items@[i as int]);
            }
            if matches_item_filter(&self.items[i], filter) {
                out.push(self.items[i].clone());
            }
            i = i + 1;
        }
        assert(self.items@.take(self.items@.len() as int) == self.items@);
        out
    }

    /// The first item with this id, or a 404 naming the id.
    pub fn get_item(&self, id: u64) -> (r: Result<LostAndFoundItem, ApiError>)
        ensures
            r matches Ok(it) ==> self@.lookup_item(id) == Some(it),
            r matches Err(e) ==> self@.lookup_item(id) is None && e.is(NOT_FOUND, item_not_found_message(id)),
    {
        match self.find_item_index(id) {
            Some(i) => Ok(self.items[i].clone()),
            None => Err(item_not_found(id)),
        }
    }

    /// Files a report of a found item, stamped with the given time.
    pub fn create_item_at(&mut self, request: LostAndFoundCreateItemRequest, created_at: Timestamp) -> (r: Result<LostAndFoundItem, ApiError>)
        ensures
            r is Ok <==> create_item_valid(request),
            r matches Ok(item) ==> old(self)@.item_created(request, created_at, final(self)@, item),
            r matches Err(e) ==> final(self)@ == old(self)@ && e.is(BAD_REQUEST, "title and found_location are required"@),
    {
        let valid = validate_create_item_request(&request);
        if let Err(e) = valid {
            return Err(e);
        }
        let description = match request.description {
            Some(d) => d,
            None => owned("Keine Beschreibung angegeben"),
        };
        let image_url = match request.image_url {
            Some(u) => u,
            None => owned("https://images.unsplash.com/photo-1542291026-7eec264c27ff?w=800&auto=format&fit=crop"),
        };
        let created_by_user_id = match request.created_by_user_id {
            Some(u) => u,
            None => 1,
        };
        let item = LostAndFoundItem {
            id: self.next_item_id,
            title: request.title,
            description,
            category: request.category,
            found_location: request.found_location,
            found_date: request.found_date,
            found_time: request.found_time,
            image_url,
            status: LostAndFoundItemStatus::Visible,
            created_by_user_id,
            created_at,
        };
        self.next_item_id = self.next_item_id.saturating_add(1);
        let out = item.clone();
        self.items.push(item);
        Ok(out)
    }

    /// Files a report of a found item, stamped with the current time.
    pub fn create_item(&mut self, request: LostAndFoundCreateItemRequest) -> (r: Result<LostAndFoundItem, ApiError>)
        ensures
            r is Ok <==> create_item_valid(request),
            r matches Ok(item) ==> old(self)@.item_created(request, item.created_at, final(self)@, item),
            r matches Err(e) ==> final(self)@ == old(self)@ && e.is(BAD_REQUEST, "title and found_location are required"@),
    {
        let t = now();
        self.create_item_at(request, t)
    }

    /// Sets the status of the first item with this id, or answers 404.
    pub fn update_item_status(&mut self, id: u64, status: LostAndFoundItemStatus) -> (r: Result<LostAndFoundItem, ApiError>)
        ensures
            r is Ok <==> old(self)@.lookup_item(id) is Some,
            r matches Ok(item) ==> old(self)@.status_updated(id, status, final(self)@, item),
            r matches Err(e) ==> final(self)@ == old(self)@ && e.is(NOT_FOUND, item_not_found_message(id)),
    {
        match self.find_item_index(id) {
            Some(i) => {
                let old_item = self.items[i].clone();
                let item = LostAndFoundItem { status, ..old_item };
                let out = item.clone();
                self.items.set(i, item);
                Ok(out)
            },
            None => Err(item_not_found(id)),
        }
    }

    /// All claims, in the order they were filed.
    pub fn list_claims(&self) -> (r: Vec<LostAndFoundClaim>)
        ensures
            r@ == self@.claims,
    {
        let mut out: Vec<LostAndFoundClaim> = Vec::new();
        let mut i: usize = 0;
        while i < self.claims.len()
            invariant
                i <= self.claims@.len(),
                out@ == self.claims@.take(i as int),
            decreases self.claims.len() - i,
        {
            out.push(self.claims[i]);
            assert(self.claims@.take(i + 1) == self.claims@.take(i as int).push(self.claims@[i as int]));
            i = i + 1;
        }
        assert(self.claims@.take(self.claims@.len() as int) == self.claims@);
        out
    }

    fn has_item_id(&self, id: u64) -> (r: bool)
        ensures
            r == self@.has_item(id),
    {
        let mut i: usize = 0;
        while i < self.items.len()
            invariant
                i <= self.items@.len(),
                forall|j: int| 0 <= j < i ==> #[trigger] self.items@[j].id != id,
            decreases self.items.len() - i,
        {
            if self.items[i].id == id {
                assert(self@.items[i as int].id == id);
                return true;
            }
            i = i + 1;
        }
        false
    }

    fn has_user_id(&self, id: u64) -> (r: bool)
        ensures
            r == self@.has_user(id),
    {
        let mut i: usize = 0;
        while i < self.users.len()
            invariant
                i <= self.users@.len(),
                forall|j: int| 0 <= j < i ==> #[trigger] self.users@[j].id != id,
            decreases self.users.len() - i,
        {
            if self.users[i].id == id {
                assert(self@.users[i as int].id == id);
                return true;
            }
            i = i + 1;
        }
        false
    }

    /// Files a pending claim, stamped with the given time; the item and the
    /// claiming user must both exist.
    pub fn create_claim_at(&mut self, request: LostAndFoundCreateClaimRequest, created_at: Timestamp) -> (r: Result<LostAndFoundClaim, ApiError>)
        ensures
            r is Ok <==> old(self)@.has_item(request.item_id) && old(self)@.has_user(request.claimer_user_id),
            r matches Ok(claim) ==> old(self)@.claim_created(request, created_at, final(self)@, claim),
            r matches Err(e) ==> final(self)@ == old(self)@ && e.is(BAD_REQUEST, "unknown item_id or claimer_user_id"@),
    {
        let has_item = self.has_item_id(request.item_id);
        let has_user = self.has_user_id(request.claimer_user_id);
        if !has_item || !has_user {
            return Err(ApiError::bad_request(owned("unknown item_id or claimer_user_id")));
        }
        let claim = LostAndFoundClaim {
            id: self.next_claim_id,
            item_id: request.item_id,
            claimer_user_id: request.claimer_user_id,
            status: LostAndFoundClaimStatus::Pending,
            created_at,
        };
        self.next_claim_id = self.next_claim_id.saturating_add(1);
        self.claims.push(claim);
        Ok(claim)
    }

    /// Files a pending claim, stamped with the current time.
    pub fn create_claim(&mut self, request: LostAndFoundCreateClaimRequest) -> (r: Result<LostAndFoundClaim, ApiError>)
        ensures
            r is Ok <==> old(self)@.has_item(request.item_id) && old(self)@.has_user(request.claimer_user_id),
            r matches Ok(claim) ==> old(self)@.claim_created(request, claim.created_at, final(self)@, claim),
            r matches Err(e) ==> final(self)@ == old(self)@ && e.is(BAD_REQUEST, "unknown item_id or claimer_user_id"@),
    {
        let t = now();
        self.create_claim_at(request, t)
    }
}

/// Under a status filter, every listed item has that status, whatever the
/// category filter; with no category filter, the listing is exactly the items
/// with that status, in order.
pub proof fn law_status_filter_lists_only_that_status(v: LostAndFoundView, filter: LostAndFoundItemFilter)
    requires
        filter.status is Some,
    ensures
        forall|k: int| 0 <= k < v.filtered(filter).len() ==> #[trigger] v.filtered(filter)[k].status == filter.status->0,
        filter.category is None ==> v.filtered(filter) == v.items.filter(
            |it: LostAndFoundItem| it.status == filter.status->0,
        ),
{
    broadcast use vstd::seq_lib::group_filter_ensures;
    let s = filter.status->0;
    assert forall|k: int| 0 <= k < v.filtered(filter).len() implies #[trigger] v.filtered(filter)[k].status == s by {
        assert(item_filter_pred(filter)(v.filtered(filter)[k]));
    }
    if filter.category is None {
        assert(item_filter_pred(filter) =~= (|it: LostAndFoundItem| it.status == s));
    }
}

} // verus!

use stardive::lostandfound::{
    LostAndFoundClaimStatus, LostAndFoundCreateClaimRequest, LostAndFoundCreateItemRequest,
    LostAndFoundItemFilter, LostAndFoundItemStatus, LostAndFoundLoginRequest, LostAndFoundStore, health,
    list_categories, validate_create_item_request,
};

fn no_filter() -> LostAndFoundItemFilter {
    LostAndFoundItemFilter { status: None, category: None }
}

fn wallet() -> LostAndFoundCreateItemRequest {
    LostAndFoundCreateItemRequest {
        title: "Wallet".to_string(),
        description: Some("Brown leather".to_string()),
        category: "Accessoires".to_string(),
        found_location: "Building B / Lab 2".to_string(),
        found_date: "2026-04-26".to_string(),
        found_time: "12:45".to_string(),
        image_url: None,
        created_by_user_id: None,
    }
}

#[test]
fn seeded_store_lists_every_item_without_a_filter() {
    let store = LostAndFoundStore::seeded();
    let items = store.list_items(&no_filter());
    assert_eq!(items.len(), 8);
    let ids: Vec<u64> = items.iter().map(|i| i.id).collect();
    assert_eq!(ids, vec![1, 2, 3, 4, 5, 6, 7, 8]);
    assert_eq!(items[1].title, "AirPods Ladecase");
    assert_eq!(items[2].status, LostAndFoundItemStatus::Returned);
}

#[test]
fn status_and_category_filters_combine() {
    let store = LostAndFoundStore::seeded();
    let returned = store.list_items(&LostAndFoundItemFilter {
        status: Some(LostAndFoundItemStatus::Returned),
        category: None,
    });
    let ids: Vec<u64> = returned.iter().map(|i| i.id).collect();
    assert_eq!(ids, vec![3, 8]);
    let electronics = store.list_items(&LostAndFoundItemFilter {
        status: Some(LostAndFoundItemStatus::Visible),
        category: Some("ELEKTRONIK".to_string()),
    });
    let ids: Vec<u64> = electronics.iter().map(|i| i.id).collect();
    assert_eq!(ids, vec![2]);
}

#[test]
fn get_item_finds_seeded_and_refuses_unknown() {
    let store = LostAndFoundStore::seeded();
    let item = store.get_item(4).expect("seeded item");
    assert_eq!(item.title, "Studentenausweis");
    let err = store.get_item(99).expect_err("unknown item");
    assert_eq!(err.status, 404);
    assert_eq!(err.message, "item 99 not found");
}

#[test]
fn created_item_gets_next_id_and_defaults_and_is_found() {
    let mut store = LostAndFoundStore::seeded();
    let mut request = wallet();
    request.description = None;
    let item = store.create_item(request).expect("valid item");
    assert_eq!(item.id, 9);
    assert_eq!(item.description, "Keine Beschreibung angegeben");
    assert_eq!(
        item.image_url,
        "https://images.unsplash.com/photo-1542291026-7eec264c27ff?w=800&auto=format&fit=crop"
    );
    assert_eq!(item.status, LostAndFoundItemStatus::Visible);
    assert_eq!(item.created_by_user_id, 1);
    let fetched = store.get_item(9).expect("created item is found");
    assert_eq!(fetched.title, "Wallet");
    assert_eq!(fetched.found_location, "Building B / Lab 2");
    let second = store.create_item_at(wallet(), 7).expect("second item");
    assert_eq!(second.id, 10);
    assert_eq!(second.description, "Brown leather");
    assert_eq!(second.created_at, 7);
    assert_eq!(store.list_items(&no_filter()).len(), 10);
}

#[test]
fn invalid_item_is_refused_and_store_unchanged() {
    let mut store = LostAndFoundStore::seeded();
    let mut request = wallet();
    request.found_location = "   ".to_string();
    let err = store.create_item(request).expect_err("blank location");
    assert_eq!(err.status, 400);
    assert_eq!(err.message, "title and found_location are required");
    assert_eq!(store.list_items(&no_filter()).len(), 8);
    assert!(validate_create_item_request(&wallet()).is_ok());
}

#[test]
fn status_update_is_seen_by_later_reads() {
    let mut store = LostAndFoundStore::seeded();
    let updated = store.update_item_status(1, LostAndFoundItemStatus::Returned).expect("known item");
    assert_eq!(updated.status, LostAndFoundItemStatus::Returned);
    assert_eq!(store.get_item(1).expect("item").status, LostAndFoundItemStatus::Returned);
    let err = store.update_item_status(42, LostAndFoundItemStatus::Visible).expect_err("unknown");
    assert_eq!(err.status, 404);
    assert_eq!(err.message, "item 42 not found");
}

#[test]
fn claims_need_a_known_item_and_user() {
    let mut store = LostAndFoundStore::seeded();
    assert_eq!(store.list_claims().len(), 1);
    assert_eq!(store.list_claims()[0].status, LostAndFoundClaimStatus::Approved);
    let err = store
        .create_claim(LostAndFoundCreateClaimRequest { item_id: 99, claimer_user_id: 1 })
        .expect_err("unknown item");
    assert_eq!(err.status, 400);
    assert_eq!(err.message, "unknown item_id or claimer_user_id");
    let err = store
        .create_claim(LostAndFoundCreateClaimRequest { item_id: 1, claimer_user_id: 3 })
        .expect_err("unknown user");
    assert_eq!(err.status, 400);
    let claim = store
        .create_claim_at(LostAndFoundCreateClaimRequest { item_id: 2, claimer_user_id: 1 }, 11)
        .expect("valid claim");
    assert_eq!(claim.id, 2);
    assert_eq!(claim.item_id, 2);
    assert_eq!(claim.claimer_user_id, 1);
    assert_eq!(claim.status, LostAndFoundClaimStatus::Pending);
    assert_eq!(claim.created_at, 11);
    let claims = store.list_claims();
    assert_eq!(claims.len(), 2);
    assert_eq!(claims[1].id, 2);
}

#[test]
fn login_checks_password_and_email() {
    let store = LostAndFoundStore::seeded();
    let err = store
        .login(&LostAndFoundLoginRequest { email: "lena@hdm-stuttgart.de".to_string(), password: " ".to_string() })
        .expect_err("empty password");
    assert_eq!(err.status, 400);
    assert_eq!(err.message, "password must not be empty");
    let err = store
        .login(&LostAndFoundLoginRequest { email: "nobody@example.com".to_string(), password: "x".to_string() })
        .expect_err("unknown email");
    assert_eq!(err.status, 401);
    assert_eq!(err.message, "invalid email or password");
    let ok = store
        .login(&LostAndFoundLoginRequest { email: "TOM@HDM-Stuttgart.de".to_string(), password: "x".to_string() })
        .expect("known email, any case");
    assert_eq!(ok.user.id, 2);
    assert_eq!(ok.user.name, "Tom Schneider");
    assert!(ok.token.starts_with("mock-token-"));
    assert_eq!(ok.token.len(), "mock-token-".len() + 36);
    let other = store
        .login(&LostAndFoundLoginRequest { email: "tom@hdm-stuttgart.de".to_string(), password: "x".to_string() })
        .expect("login");
    assert_ne!(ok.token, other.token);
}

#[test]
fn categories_and_health_are_fixed() {
    assert_eq!(
        list_categories(),
        vec!["Elektronik", "Accessoires", "Schmuck", "Kleidung", "Dokumente", "Sonstige"]
    );
    let h = health();
    assert!(h.ok);
    assert_eq!(h.service, "lostandfound-mock-api");
}

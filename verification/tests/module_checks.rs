use base64::Engine;
use base64::engine::general_purpose::URL_SAFE_NO_PAD;
use stardive::auth::is_public_path;
use stardive::client::{FileGuiApp, bearer_value, label_id};
use stardive::config::resolve_cli_config_values;
use stardive::lostandfound::{
    LostAndFoundCreateItemRequest, LostAndFoundItem, LostAndFoundItemFilter, LostAndFoundItemStatus,
    matches_item_filter, validate_create_item_request,
};
use stardive::notifications::{
    NotificationRequest, NotificationSubscriptionRequest, PushSubscriptionKeys, validate_notification,
    validate_subscription,
};
use stardive::obscura::is_hop_by_hop;
use stardive::orbit::validate_lua_name;
use stardive::render::sanitize_language;
use stardive::search::{SearchRequest, apply_search_options, validate_search_request};
use stardive::static_assets::{mime_from_name, validate_static_name};

#[test]
fn obscura_mcp_is_public_but_neighboring_routes_are_not() {
    assert!(is_public_path("/v1/obscura/mcp"));
    assert!(is_public_path("/obscura/mcp"));
    assert!(!is_public_path("/v1/obscura"));
    assert!(!is_public_path("/v1/obscura/mcp/admin"));
}

#[test]
fn create_item_validation_rejects_missing_fields() {
    let request = LostAndFoundCreateItemRequest {
        title: "  ".to_string(),
        description: None,
        category: "Elektronik".to_string(),
        found_location: String::new(),
        found_date: "2026-04-26".to_string(),
        found_time: "10:00".to_string(),
        image_url: None,
        created_by_user_id: None,
    };

    assert!(validate_create_item_request(&request).is_err());
}

#[test]
fn filter_is_case_insensitive_for_category() {
    let item = LostAndFoundItem {
        id: 1,
        title: "A".to_string(),
        description: "B".to_string(),
        category: "Elektronik".to_string(),
        found_location: "Room".to_string(),
        found_date: "2026-04-26".to_string(),
        found_time: "10:00".to_string(),
        image_url: "https://example.com/x.jpg".to_string(),
        status: LostAndFoundItemStatus::Visible,
        created_by_user_id: 1,
        created_at: stardive::outside::now(),
    };
    let filter = LostAndFoundItemFilter { status: None, category: Some("elektronik".to_string()) };

    assert!(matches_item_filter(&item, &filter));
}

fn subscription() -> NotificationSubscriptionRequest {
    NotificationSubscriptionRequest {
        endpoint: "https://push.example.test/device".to_string(),
        keys: PushSubscriptionKeys {
            p256dh: URL_SAFE_NO_PAD.encode([1_u8; 65]),
            auth: URL_SAFE_NO_PAD.encode([2_u8; 16]),
        },
        expiration_time: None,
        device_name: Some("Noah's iPhone".to_string()),
    }
}

#[test]
fn validates_subscription_transport_and_keys() {
    assert!(validate_subscription(&subscription()).is_ok());
    let mut insecure = subscription();
    insecure.endpoint = "http://push.example.test/device".to_string();
    assert!(validate_subscription(&insecure).is_err());
    let mut invalid_key = subscription();
    invalid_key.keys.auth = "not base64!".to_string();
    assert!(validate_subscription(&invalid_key).is_err());
}

/// The size of a notification as the server encodes it for delivery.
fn encoded_len(request: &NotificationRequest) -> Result<usize, String> {
    let text = |v: &Option<String>| match v {
        Some(s) => serde_json::Value::String(s.clone()),
        None => serde_json::Value::Null,
    };
    let mut map = serde_json::Map::new();
    map.insert("title".to_string(), serde_json::Value::String(request.title.clone()));
    map.insert("body".to_string(), serde_json::Value::String(request.body.clone()));
    map.insert("url".to_string(), text(&request.url));
    map.insert("icon".to_string(), text(&request.icon));
    map.insert("tag".to_string(), text(&request.tag));
    map.insert("channel".to_string(), text(&request.channel));
    serde_json::to_vec(&serde_json::Value::Object(map)).map(|v| v.len()).map_err(|e| e.to_string())
}

#[test]
fn validates_notification_links_and_lengths() {
    let valid = NotificationRequest {
        title: "New message".to_string(),
        body: "Hello".to_string(),
        url: Some("https://chat.example.test/channel/general".to_string()),
        icon: None,
        tag: None,
        channel: Some("general".to_string()),
    };
    assert!(validate_notification(&valid, encoded_len(&valid)).is_ok());
    let mut unsafe_link = valid;
    unsafe_link.url = Some("javascript:alert(1)".to_string());
    let encoded = encoded_len(&unsafe_link);
    assert!(validate_notification(&unsafe_link, encoded).is_err());
}

#[test]
fn filters_hop_by_hop_headers() {
    assert!(is_hop_by_hop("connection"));
    assert!(is_hop_by_hop("transfer-encoding"));
    assert!(!is_hop_by_hop("mcp-session-id"));
    assert!(!is_hop_by_hop("last-event-id"));
}

#[test]
fn validation_rejects_non_lua_name() {
    assert!(validate_lua_name("main.txt").is_err());
}

#[test]
fn sanitize_language_keeps_ascii_alnum() {
    assert_eq!(sanitize_language("TypeScript!"), "typescript");
    assert_eq!(sanitize_language("@@@"), "txt");
}

#[test]
fn search_validation_rejects_empty_query() {
    let request = SearchRequest {
        query: "".to_string(),
        region: None,
        safesearch: None,
        timelimit: None,
        max_results: None,
    };
    assert!(validate_search_request(&request).is_err());
}

#[test]
fn apply_search_options_sets_flags() {
    let request = SearchRequest {
        query: "rust".to_string(),
        region: Some("us-en".to_string()),
        safesearch: Some("off".to_string()),
        timelimit: Some("w".to_string()),
        max_results: Some(5),
    };
    let mut args = vec![];
    apply_search_options(&request, &mut args);
    assert!(args.contains(&"-r".to_string()));
    assert!(args.contains(&"us-en".to_string()));
    assert!(args.contains(&"-m".to_string()));
}

#[test]
fn validate_rejects_path_traversal() {
    assert!(validate_static_name("../bad").is_err());
    assert!(validate_static_name("ok.sh").is_ok());
}

#[test]
fn mime_resolution_works() {
    assert!(mime_from_name("x.sh").starts_with("text/x-shellscript"));
    assert_eq!(mime_from_name("x.bin"), "application/octet-stream");
}

#[test]
fn default_base_url_is_set() {
    let cfg = resolve_cli_config_values(None, None, None, None, None, None);
    assert!(!cfg.base_url.is_empty());
}

#[test]
fn gui_app_initializes() {
    let app = FileGuiApp::new("https://api.stardive.space".to_string(), None);
    assert!(app.pending_files.is_empty());
}

#[test]
fn parse_id_from_label_format() {
    let value = "abc123 (name.txt, 10 bytes)";
    let parsed = label_id(value);
    assert_eq!(parsed, "abc123");
}

#[test]
fn auth_header_includes_bearer() {
    let auth = bearer_value("secret");
    assert_eq!(auth, "Bearer secret");
}

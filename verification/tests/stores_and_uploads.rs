use base64::Engine;
use base64::engine::general_purpose::URL_SAFE_NO_PAD;
use stardive::file_index::{FileIndex, FileMetadata};
use stardive::files::{content_disposition, new_file_metadata};
use stardive::notifications::{
    NotificationRequest, NotificationSubscriptionRequest, PushSubscriptionKeys, SendOutcome, StoredSubscription,
    SubscriptionList, subscription_verdict, summarize_broadcast, validate_notification, validate_resource_url,
    validate_subscription, validate_vapid_subject,
};
use stardive::notifications::{new_vapid_private_key, stored_vapid_private_key, vapid_public_key};
use stardive::upload::UploadProgress;

fn meta(id: &str, t: i128) -> FileMetadata {
    new_file_metadata(id.to_string(), Some(format!("{id}.txt")), Some("text/plain".to_string()), 5, "deadbeef".to_string(), t)
}

fn file_ids(index: &FileIndex) -> Vec<String> {
    index.list().into_iter().map(|m| m.id).collect()
}

#[test]
fn file_metadata_defaults() {
    let m = new_file_metadata("x".to_string(), None, None, 0, "e3".to_string(), 1);
    assert_eq!(m.original_name, "upload.bin");
    assert_eq!(m.mime_type, "application/octet-stream");
    assert_eq!(m.size, 0);
    assert_eq!(m.created_at, 1);
    let m = meta("abc", 2);
    assert_eq!(m.original_name, "abc.txt");
    assert_eq!(m.mime_type, "text/plain");
}

#[test]
fn content_disposition_drops_quotes() {
    assert_eq!(content_disposition("a\"b.txt"), "attachment; filename=\"ab.txt\"");
    assert_eq!(content_disposition("plain.txt"), "attachment; filename=\"plain.txt\"");
}

#[test]
fn file_index_insert_keeps_newest_first_and_stable() {
    let mut index = FileIndex::empty();
    index.insert(meta("a", 1));
    index.insert(meta("b", 3));
    index.insert(meta("c", 3));
    index.insert(meta("d", 2));
    assert_eq!(file_ids(&index), vec!["b", "c", "d", "a"]);
    assert_eq!(index.get("d").expect("inserted file is found").created_at, 2);
    assert!(index.get("zzz").is_none());
}

#[test]
fn file_index_update_and_delete() {
    let mut index = FileIndex::from_entries(vec![meta("a", 3), meta("b", 2), meta("c", 1)]);
    let mut changed = meta("c", 9);
    changed.original_name = "updated.bin".to_string();
    changed.mime_type = "application/octet-stream".to_string();
    changed.sha256 = "feedface".to_string();
    let updated = index.update("c", changed).expect("known id");
    assert_eq!(updated.original_name, "updated.bin");
    assert_eq!(file_ids(&index), vec!["c", "a", "b"]);
    assert_eq!(index.get("c").expect("updated").sha256, "feedface");
    assert!(index.update("nope", meta("nope", 1)).is_none());
    assert_eq!(file_ids(&index), vec!["c", "a", "b"]);
    let removed = index.delete("a").expect("removed");
    assert_eq!(removed.id, "a");
    assert!(index.get("a").is_none());
    assert_eq!(file_ids(&index), vec!["c", "b"]);
    assert!(index.delete("a").is_none());
}

#[test]
fn upload_progress_counts_and_hashes() {
    let mut p = UploadProgress::new(Some(10));
    assert!(p.absorb(b"hel").is_ok());
    assert!(p.absorb(b"lo").is_ok());
    let (size, sha) = p.finish();
    assert_eq!(size, 5);
    assert_eq!(sha, "2cf24dba5fb0a30e26e83b2ac5b9e29e1b161e5c1fa7425e73043362938b9824");
}

#[test]
fn upload_progress_refuses_past_the_limit() {
    let mut p = UploadProgress::new(Some(4));
    assert!(p.absorb(b"1234").is_ok());
    let err = p.absorb(b"5").expect_err("too large");
    assert_eq!(err.status, 413);
    assert_eq!(err.message, "script exceeds max size of 4 bytes");
    let mut unlimited = UploadProgress::new(None);
    assert!(unlimited.absorb(&[0_u8; 64]).is_ok());
    let (size, sha) = unlimited.finish();
    assert_eq!(size, 64);
    assert_eq!(sha, "f5a5fd42d16a20302798ef6ed309979b43003d2320d9f0e8ea9831a92759fb4b");
    let (size, sha) = UploadProgress::new(None).finish();
    assert_eq!(size, 0);
    assert_eq!(sha, "e3b0c44298fc1c149afbf4c8996fb92427ae41e4649b934ca495991b7852b855");
}

#[test]
fn vapid_subject_and_resource_links() {
    assert!(validate_vapid_subject("mailto:ops@example.com").is_ok());
    assert!(validate_vapid_subject("https://example.com").is_ok());
    assert_eq!(
        validate_vapid_subject("http://example.com").expect_err("plain http"),
        "STARDIVE_VAPID_SUBJECT must use mailto: or HTTPS"
    );
    assert!(validate_resource_url(None, "url").is_ok());
    assert!(validate_resource_url(Some("/inbox"), "url").is_ok());
    let err = validate_resource_url(Some("//evil.example"), "icon").expect_err("protocol-relative");
    assert_eq!(err.status, 400);
    assert_eq!(err.message, "icon must be relative or use HTTPS");
}

fn note(title: &str, body: &str) -> NotificationRequest {
    NotificationRequest { title: title.to_string(), body: body.to_string(), url: None, icon: None, tag: None, channel: None }
}

#[test]
fn notification_limits() {
    let err = validate_notification(&note("   ", "x"), Ok(10)).expect_err("blank title");
    assert_eq!(err.message, "title must be between 1 and 160 characters");
    let err = validate_notification(&note(&"t".repeat(161), "x"), Ok(10)).expect_err("long title");
    assert_eq!(err.status, 400);
    assert!(validate_notification(&note(&format!("  {}  ", "t".repeat(160)), "x"), Ok(10)).is_ok());
    let err = validate_notification(&note("t", &"b".repeat(2401)), Ok(10)).expect_err("long body");
    assert_eq!(err.message, "body must be at most 2400 characters");
    let err = validate_notification(&note("t", "b"), Ok(2801)).expect_err("too large");
    assert_eq!(err.status, 413);
    assert_eq!(err.message, "notification payload must be at most 2800 encoded bytes");
    assert!(validate_notification(&note("t", "b"), Ok(2800)).is_ok());
    let err = validate_notification(&note("t", "b"), Err("bad".to_string())).expect_err("encode failed");
    assert_eq!(err.message, "invalid notification payload: bad");
}

fn sub(endpoint: &str, device: Option<&str>) -> NotificationSubscriptionRequest {
    NotificationSubscriptionRequest {
        endpoint: endpoint.to_string(),
        keys: PushSubscriptionKeys { p256dh: URL_SAFE_NO_PAD.encode([1_u8; 65]), auth: URL_SAFE_NO_PAD.encode([2_u8; 16]) },
        expiration_time: None,
        device_name: device.map(|d| d.to_string()),
    }
}

#[test]
fn subscription_checks_each_rule() {
    let err = validate_subscription(&sub("not a url", None)).expect_err("not a url");
    assert_eq!(err.message, "subscription endpoint must be a valid URL");
    let err = validate_subscription(&sub("http://push.example.test/x", None)).expect_err("http");
    assert_eq!(err.message, "subscription endpoint must use HTTPS");
    let mut padded = sub("https://push.example.test/x", None);
    padded.keys.auth = format!("{}=", padded.keys.auth);
    let err = validate_subscription(&padded).expect_err("padded");
    assert_eq!(err.message, "subscription keys must be unpadded base64url");
    let mut empty = sub("https://push.example.test/x", None);
    empty.keys.auth = String::new();
    let err = validate_subscription(&empty).expect_err("empty key");
    assert_eq!(err.message, "subscription keys are required");
    let long = "n".repeat(121);
    let err = validate_subscription(&sub("https://push.example.test/x", Some(&long))).expect_err("long name");
    assert_eq!(err.message, "device_name must be at most 120 characters");
    assert!(validate_subscription(&sub("https://push.example.test/x", Some(&"n".repeat(120)))).is_ok());
    let verdict = subscription_verdict(&sub("https://a", None), &Some((Some("https".to_string()), None)), true, true);
    assert_eq!(verdict.expect_err("no host").message, "subscription endpoint must use HTTPS");
}

#[test]
fn subscribing_twice_to_one_endpoint_updates_in_place() {
    let mut list = SubscriptionList::from_entries(vec![]);
    let first = list.subscribe_at(sub("https://push.example.test/a", Some("phone")), "id1".to_string(), 1);
    assert_eq!(first.id, "id1");
    assert_eq!(first.device_name.as_deref(), Some("phone"));
    list.subscribe_at(sub("https://push.example.test/b", None), "id2".to_string(), 2);
    let again = list.subscribe_at(sub("https://push.example.test/a", Some("tablet")), "id3".to_string(), 3);
    assert_eq!(again.id, "id1");
    assert_eq!(again.created_at, 1);
    assert_eq!(again.device_name.as_deref(), Some("tablet"));
    let all = list.snapshot();
    assert_eq!(all.len(), 2);
    assert_eq!(all[0].device_name.as_deref(), Some("tablet"));
    let fresh = list.subscribe(sub("https://push.example.test/c", None));
    assert_eq!(fresh.id.len(), 32);
    assert_eq!(list.snapshot().len(), 3);
    let public = all[1].public();
    assert_eq!(public.id, "id2");
    assert_eq!(public.endpoint, "https://push.example.test/b");
}

#[test]
fn unsubscribe_and_expired_removal() {
    let stored = |id: &str| StoredSubscription {
        id: id.to_string(),
        endpoint: format!("https://push.example.test/{id}"),
        keys: PushSubscriptionKeys { p256dh: "p".to_string(), auth: "a".to_string() },
        device_name: None,
        created_at: 0,
    };
    let mut list = SubscriptionList::from_entries(vec![stored("a"), stored("b"), stored("c"), stored("d")]);
    let err = list.unsubscribe("").expect_err("empty id");
    assert_eq!(err.status, 400);
    assert_eq!(err.message, "subscription id is required");
    let err = list.unsubscribe("zz").expect_err("unknown");
    assert_eq!(err.status, 404);
    assert_eq!(err.message, "notification subscription not found");
    assert!(list.unsubscribe("b").is_ok());
    assert!(!list.remove("b"));
    list.remove_expired(&vec!["a".to_string(), "x".to_string(), "d".to_string()]);
    let left: Vec<String> = list.snapshot().into_iter().map(|s| s.id).collect();
    assert_eq!(left, vec!["c"]);
}

#[test]
fn broadcast_summary_counts_each_outcome() {
    let outcomes = vec![
        ("a".to_string(), SendOutcome::Delivered),
        ("b".to_string(), SendOutcome::Expired),
        ("c".to_string(), SendOutcome::Failed("timeout".to_string())),
        ("d".to_string(), SendOutcome::Delivered),
        ("e".to_string(), SendOutcome::Expired),
    ];
    let (summary, expired) = summarize_broadcast("n1".to_string(), 5, &outcomes);
    assert_eq!(summary.id, "n1");
    assert_eq!(summary.subscriptions, 5);
    assert_eq!(summary.delivered, 2);
    assert_eq!(summary.failed, 1);
    assert_eq!(summary.removed, 2);
    assert_eq!(expired, vec!["b", "e"]);
    assert_eq!(summary.delivered + summary.failed + summary.removed, outcomes.len());
}

#[test]
fn vapid_keys_round_trip() {
    let private_key = new_vapid_private_key();
    assert_eq!(URL_SAFE_NO_PAD.decode(&private_key).expect("base64url").len(), 32);
    assert_ne!(private_key, new_vapid_private_key());
    let stored = stored_vapid_private_key(&format!("  {private_key}\n"));
    assert_eq!(stored, private_key);
    let public_key = vapid_public_key(&stored).expect("valid key");
    let raw = URL_SAFE_NO_PAD.decode(&public_key).expect("base64url");
    assert_eq!(raw.len(), 65);
    assert_eq!(raw[0], 4);
    assert_eq!(vapid_public_key(&stored).expect("same key"), public_key);
    assert_eq!(
        vapid_public_key("not a key!").expect_err("invalid"),
        "invalid VAPID private key: request has invalid cryptographic keys"
    );
}

#[test]
fn fresh_vapid_key_is_url_safe_and_reads_back() {
    let key = new_vapid_private_key();
    assert!(key.chars().all(|c| c.is_ascii_alphanumeric() || c == '-' || c == '_'));
    assert_eq!(stored_vapid_private_key(&key), key);
}

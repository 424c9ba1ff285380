use opentube::api::ApiError;
use opentube::auth::{bearer_token, require_bearer, TokenError};
use opentube::video::{
    check_idempotency_key, completion_gate, completion_publishes_event, cursor_matches_search,
    decode_cursor, encode_cursor, list_params, page_window, plan_processing_update,
    playback_policy_resource, playback_url, relay_pause_millis, replay_decision,
    sanitize_failure_code, source_object_key, update_applied, upload_size_accepted,
    uploaded_object_matches, validate_new_video, worker_authorized, CompletionGate, VideoUpdate,
    MAX_UPLOAD_BYTES,
};

fn cursor_document(published_at: &str, id: &str, query: &str) -> Vec<u8> {
    let mut object = serde_json::Map::new();
    object.insert("published_at".to_string(), serde_json::Value::String(published_at.into()));
    object.insert("id".to_string(), serde_json::Value::String(id.into()));
    object.insert("query".to_string(), serde_json::Value::String(query.into()));
    serde_json::to_vec(&serde_json::Value::Object(object)).unwrap()
}

#[test]
fn cursor_round_trips_and_preserves_search() {
    let id = uuid::Uuid::new_v4().to_string();
    let published_at = chrono::Utc::now().to_rfc3339();
    let json = cursor_document(&published_at, &id, "quiet lake");
    let decoded = decode_cursor(&encode_cursor(&json)).unwrap();
    assert_eq!(decoded, json);
    let value: serde_json::Value = serde_json::from_slice(&decoded).unwrap();
    assert_eq!(value["id"], id.as_str());
    assert_eq!(value["query"], "quiet lake");
    assert_eq!(value["published_at"], published_at.as_str());
}

#[test]
fn malformed_cursor_is_rejected() {
    assert!(decode_cursor("not a cursor").is_err());
}

#[test]
fn cursor_encoding_is_unpadded_url_safe_base64() {
    assert_eq!(encode_cursor(&[0xfb, 0xff]), "-_8");
    assert_eq!(decode_cursor("-_8").unwrap(), vec![0xfb, 0xff]);
    assert_eq!(decode_cursor("-_8=").unwrap_err(), ApiError::BadRequest);
    // Non-zero trailing bits are not a canonical encoding.
    assert_eq!(decode_cursor("-_9").unwrap_err(), ApiError::BadRequest);
    assert_eq!(encode_cursor(&[]), "");
    assert_eq!(decode_cursor("").unwrap(), Vec::<u8>::new());
    // Standard-alphabet characters are outside the URL-safe alphabet.
    assert_eq!(decode_cursor("+/8").unwrap_err(), ApiError::BadRequest);
    let all: Vec<u8> = (0u8..=255).collect();
    let text = encode_cursor(&all);
    assert_eq!(text.len(), (4 * all.len() + 2) / 3);
    assert!(text.chars().all(|c| c.is_ascii_alphanumeric() || c == '-' || c == '_'));
}

#[test]
fn upload_size_boundaries_are_inclusive() {
    assert!(upload_size_accepted(1));
    assert!(upload_size_accepted(MAX_UPLOAD_BYTES));
    assert!(!upload_size_accepted(0));
    assert!(!upload_size_accepted(MAX_UPLOAD_BYTES + 1));
}

#[test]
fn create_video_rejects_invalid_upload_metadata() {
    let cases = [
        ("  ".to_string(), String::new(), "video/mp4", 1),
        ("x".repeat(121), String::new(), "video/mp4", 1),
        ("Title".to_string(), "x".repeat(2001), "video/mp4", 1),
        ("Title".to_string(), String::new(), "video/quicktime", 1),
        ("Title".to_string(), String::new(), "video/mp4", 0),
        ("Title".to_string(), String::new(), "video/mp4", MAX_UPLOAD_BYTES + 1),
    ];
    for (title, description, content_type, size) in cases {
        assert_eq!(
            validate_new_video(&title, &description, content_type, size).unwrap_err(),
            ApiError::BadRequest
        );
    }
}

#[test]
fn valid_upload_request_is_stored_trimmed() {
    let video = validate_new_video("  Synthetic upload \n", " Test fixture ", "video/mp4", 42).unwrap();
    assert_eq!(video.title, "Synthetic upload");
    assert_eq!(video.description, "Test fixture");
    // Titles and descriptions are limited in characters, not bytes.
    assert!(validate_new_video(&"x".repeat(120), "", "video/mp4", 1).is_ok());
    assert!(validate_new_video(&"x".repeat(121), "", "video/mp4", 1).is_err());
    assert!(validate_new_video(&"é".repeat(120), "", "video/mp4", 1).is_ok());
    assert!(validate_new_video(&"é".repeat(121), "", "video/mp4", 1).is_err());
    assert!(validate_new_video("Lake", &"é".repeat(2000), "video/mp4", 1).is_ok());
    assert!(validate_new_video("Lake", &"é".repeat(2001), "video/mp4", 1).is_err());
    // Unicode whitespace is trimmed too.
    let video = validate_new_video("\u{3000}Lake\u{a0}", "", "video/mp4", 1).unwrap();
    assert_eq!(video.title, "Lake");
    assert_eq!(source_object_key("abc"), "videos/abc/source.mp4");
}

#[test]
fn upload_completion_checks_status_and_object_size() {
    assert!(matches!(completion_gate(None), CompletionGate::NotFound));
    assert!(matches!(completion_gate(Some("pending_upload")), CompletionGate::VerifyObject));
    match completion_gate(Some("uploaded")) {
        CompletionGate::AlreadySettled(status) => assert_eq!(status, "uploaded"),
        other => panic!("unexpected {other:?}"),
    }
    assert_eq!(uploaded_object_matches(None, 42).unwrap_err(), ApiError::Conflict);
    assert_eq!(uploaded_object_matches(Some(Some(41)), 42).unwrap_err(), ApiError::Conflict);
    assert_eq!(uploaded_object_matches(Some(None), 42).unwrap_err(), ApiError::Conflict);
    assert!(uploaded_object_matches(Some(Some(42)), 42).is_ok());
    assert!(uploaded_object_matches(Some(None), 0).is_ok());
    assert!(completion_publishes_event(1));
    assert!(!completion_publishes_event(0));
}

#[test]
fn listing_parameters_are_trimmed_and_clamped() {
    let params = list_params(None, None).unwrap();
    assert_eq!(params.search, "");
    assert_eq!(params.limit, 24);
    let params = list_params(Some("  quiet lake "), Some(2)).unwrap();
    assert_eq!(params.search, "quiet lake");
    assert_eq!(params.limit, 2);
    assert_eq!(list_params(None, Some(0)).unwrap().limit, 1);
    assert_eq!(list_params(None, Some(-5)).unwrap().limit, 1);
    assert_eq!(list_params(None, Some(500)).unwrap().limit, 50);
    assert!(list_params(Some(&"q".repeat(200)), None).is_ok());
    assert_eq!(list_params(Some(&"q".repeat(201)), None).unwrap_err(), ApiError::BadRequest);
    assert_eq!(cursor_matches_search("other", "quiet").unwrap_err(), ApiError::BadRequest);
    assert!(cursor_matches_search("quiet", "quiet").is_ok());
}

#[test]
fn page_window_keeps_the_page_and_reports_more() {
    let (items, more) = page_window(vec![3, 2, 1], 2);
    assert_eq!(items, [3, 2]);
    assert!(more);
    let (items, more) = page_window(vec![1], 2);
    assert_eq!(items, [1]);
    assert!(!more);
    let (items, more) = page_window(vec![5, 4], 2);
    assert_eq!(items, [5, 4]);
    assert!(!more);
}

#[test]
fn playback_urls_point_at_the_master_playlist() {
    assert_eq!(
        playback_url("http://media.test/", "opentube", "/videos/a1/hls"),
        "http://media.test/opentube/videos/a1/hls/master.m3u8"
    );
    let url = playback_url("http://media.test", "opentube", "videos/a1/hls");
    assert!(url.ends_with("a1/hls/master.m3u8"));
    assert_eq!(
        playback_policy_resource("opentube"),
        "arn:aws:s3:::opentube/videos/*/hls/*"
    );
}

#[test]
fn worker_callbacks_need_the_worker_token() {
    assert!(worker_authorized(Some("Bearer test-worker-token"), "test-worker-token"));
    assert!(!worker_authorized(None, "test-worker-token"));
    assert!(!worker_authorized(Some("Bearer other"), "test-worker-token"));
    assert!(!worker_authorized(Some("bearer test-worker-token"), "test-worker-token"));
    assert!(!worker_authorized(Some("Bearer test-worker-token "), "test-worker-token"));
    assert_eq!(bearer_token(Some("Bearer abc")), Some("abc"));
    assert_eq!(bearer_token(Some("Basic abc")), None);
    assert_eq!(require_bearer(None).unwrap_err(), ApiError::Unauthorized);
    assert_eq!(require_bearer(Some("Bearer ")).unwrap(), "");
    assert_eq!(TokenError::Invalid.message(), "invalid token");
    assert_eq!(ApiError::Unauthorized.status_code(), 401);
    assert_eq!(ApiError::Unavailable.status_code(), 503);
}

#[test]
fn processing_callbacks_are_validated_and_idempotent() {
    assert_eq!(check_idempotency_key(None).unwrap_err(), ApiError::BadRequest);
    assert_eq!(check_idempotency_key(Some("")).unwrap_err(), ApiError::BadRequest);
    assert!(check_idempotency_key(Some(&"k".repeat(200))).is_ok());
    assert_eq!(check_idempotency_key(Some(&"k".repeat(201))).unwrap_err(), ApiError::BadRequest);

    assert!(replay_decision(Some(true)).is_ok());
    assert_eq!(replay_decision(Some(false)).unwrap_err(), ApiError::Conflict);
    assert_eq!(replay_decision(None).unwrap_err(), ApiError::Conflict);

    let id = "9d2c";
    match plan_processing_update(id, "ready", Some("videos/9d2c/hls"), None).unwrap() {
        VideoUpdate::MarkReady(prefix) => assert_eq!(prefix, "videos/9d2c/hls"),
        other => panic!("unexpected {other:?}"),
    }
    assert_eq!(
        plan_processing_update(id, "ready", Some("videos/other/hls"), None).unwrap_err(),
        ApiError::BadRequest
    );
    assert_eq!(
        plan_processing_update(id, "ready", Some(""), None).unwrap_err(),
        ApiError::BadRequest
    );
    assert_eq!(plan_processing_update(id, "ready", None, None).unwrap_err(), ApiError::BadRequest);
    match plan_processing_update(id, "failed", None, Some("bad input!")).unwrap() {
        VideoUpdate::MarkFailed(code) => assert_eq!(code, "badinput"),
        other => panic!("unexpected {other:?}"),
    }
    match plan_processing_update(id, "failed", None, None).unwrap() {
        VideoUpdate::MarkFailed(code) => assert_eq!(code, "processing_failed"),
        other => panic!("unexpected {other:?}"),
    }
    assert_eq!(
        plan_processing_update(id, "unknown", None, None).unwrap_err(),
        ApiError::BadRequest
    );
    assert!(update_applied(1).is_ok());
    assert_eq!(update_applied(0).unwrap_err(), ApiError::NotFound);
}

#[test]
fn failure_codes_are_sanitised() {
    assert_eq!(sanitize_failure_code("bad input!"), "badinput");
    assert_eq!(sanitize_failure_code("invalid_media"), "invalid_media");
    assert_eq!(sanitize_failure_code(&"a".repeat(70)), "a".repeat(64));
    assert_eq!(sanitize_failure_code("é-ü"), "");
    let once = sanitize_failure_code("x y\tz_1");
    assert_eq!(sanitize_failure_code(&once), once);
}

#[test]
fn relay_pauses_longer_after_failure() {
    assert_eq!(relay_pause_millis(true), 700);
    assert_eq!(relay_pause_millis(false), 2000);
}

use base64::Engine as _;
use rss_read_kun::{
    create_gemini_request, gemini_request_for, get_decoded_config, get_gemini_api_url,
    rss_items_to_json, AiRequest, AiServiceError, AppError, GeminiRequest, RssData,
    RssRepositoryError, RssSummaryError,
};

fn item(title: Option<&str>, description: Option<&str>, link: Option<&str>) -> RssData {
    RssData::new(
        title.map(|s| s.to_string()),
        description.map(|s| s.to_string()),
        link.map(|s| s.to_string()),
    )
}

#[test]
fn rss_items_json_exact_output() {
    let items = vec![
        item(Some("a"), Some("b"), Some("https://e/x")),
        item(None, Some("only"), None),
    ];
    assert_eq!(
        rss_items_to_json(&items),
        "[{\"title\":\"a\",\"description\":\"b\",\"link\":\"https://e/x\"},{\"title\":null,\"description\":\"only\",\"link\":null}]"
    );
}

#[test]
fn rss_items_json_empty_list() {
    let items: Vec<RssData> = Vec::new();
    assert_eq!(rss_items_to_json(&items), "[]");
}

#[test]
fn rss_items_json_escapes_like_json() {
    let items = vec![item(Some("a\"b\\c\nd\te\u{1}f"), None, None)];
    let out = rss_items_to_json(&items);
    assert_eq!(
        out,
        "[{\"title\":\"a\\\"b\\\\c\\nd\\te\\u0001f\",\"description\":null,\"link\":null}]"
    );
    let value: serde_json::Value = serde_json::from_str(&out).expect("output is valid JSON");
    let arr = value.as_array().expect("an array");
    assert_eq!(
        arr[0].get("title").and_then(|v| v.as_str()),
        Some("a\"b\\c\nd\te\u{1}f")
    );
}

#[test]
fn rss_items_json_round_trips_unicode() {
    let items = vec![item(Some("日本語 ✓"), Some("caf\u{e9}"), Some("l"))];
    let out = rss_items_to_json(&items);
    let value: serde_json::Value = serde_json::from_str(&out).expect("valid JSON");
    let obj = &value.as_array().expect("array")[0];
    assert_eq!(obj.get("title").and_then(|v| v.as_str()), Some("日本語 ✓"));
    assert_eq!(obj.get("description").and_then(|v| v.as_str()), Some("caf\u{e9}"));
}

#[test]
fn decoded_config_reads_base64_prompt() {
    let encoded = base64::engine::general_purpose::STANDARD.encode("summarize this feed: ");
    let out = get_decoded_config(Some(&encoded)).expect("valid setting decodes");
    assert_eq!(out.as_deref(), Some("summarize this feed: "));
}

#[test]
fn decoded_config_missing_setting_is_none() {
    let out = get_decoded_config(None).expect("missing setting is not an error");
    assert!(out.is_none());
}

#[test]
fn decoded_config_rejects_bad_base64() {
    let bad = "###not-base64###".to_string();
    let err = get_decoded_config(Some(&bad)).expect_err("malformed base64 fails");
    assert!(matches!(err, RssSummaryError::Base64Error(_)));
}

#[test]
fn decoded_config_rejects_non_utf8_bytes() {
    let bad_utf8 = base64::engine::general_purpose::STANDARD.encode([0xffu8, 0xfe]);
    let err = get_decoded_config(Some(&bad_utf8)).expect_err("non-UTF-8 bytes fail");
    assert!(matches!(err, RssSummaryError::Utf8Error(_)));
}

#[test]
fn gemini_api_url_must_be_present_and_non_empty() {
    let ok = get_gemini_api_url(Some("https://api.example/v1".to_string()));
    assert_eq!(ok.expect("non-empty address passes"), "https://api.example/v1");

    for bad in [None, Some(String::new())] {
        let err = get_gemini_api_url(bad).expect_err("missing or empty address fails");
        match err {
            RssSummaryError::EnvVarError(m) => assert_eq!(m, "GEMINI_API_URL is empty"),
            _ => panic!("wrong error variant"),
        }
    }
}

#[test]
fn gemini_request_concatenates_prompt_and_items() {
    let items = vec![item(Some("t"), None, Some("l"))];
    let request = create_gemini_request("prompt: ", &items);
    assert_eq!(request.contents.len(), 1);
    assert_eq!(request.contents[0].parts.len(), 1);
    assert_eq!(
        request.contents[0].parts[0].text,
        format!("prompt: {}", rss_items_to_json(&items))
    );
}

#[test]
fn gemini_request_new_wraps_one_text() {
    let request = GeminiRequest::new("hello".to_string());
    assert_eq!(request.contents.len(), 1);
    assert_eq!(request.contents[0].parts.len(), 1);
    assert_eq!(request.contents[0].parts[0].text, "hello");
}

#[test]
fn ai_request_becomes_prompt_and_context_with_line_break() {
    let request = gemini_request_for(&AiRequest {
        prompt: "do this".to_string(),
        context: "with that".to_string(),
    });
    assert_eq!(request.contents[0].parts[0].text, "do this\nwith that");
}

#[test]
fn rss_data_validity_needs_one_field() {
    assert!(item(Some("t"), None, None).is_valid());
    assert!(item(None, Some("d"), None).is_valid());
    assert!(item(None, None, Some("l")).is_valid());
    assert!(!item(None, None, None).is_valid());
}

#[test]
fn error_messages_follow_display_prefixes() {
    assert_eq!(
        RssSummaryError::HttpError("x".to_string()).message(),
        "HTTP error: x"
    );
    assert_eq!(
        RssSummaryError::EnvVarError("x".to_string()).message(),
        "Environment variable error: x"
    );
    assert_eq!(RssSummaryError::JsonError("x".to_string()).message(), "JSON error: x");
    assert_eq!(RssSummaryError::Base64Error("x".to_string()).message(), "Base64 error: x");
    assert_eq!(RssSummaryError::Utf8Error("x".to_string()).message(), "UTF-8 error: x");
    assert_eq!(RssSummaryError::SummaryError("x".to_string()).message(), "Summary error: x");
    assert_eq!(AiServiceError::RequestError("x".to_string()).message(), "AI request error: x");
    assert_eq!(AiServiceError::ResponseError("x".to_string()).message(), "AI response error: x");
    assert_eq!(AiServiceError::ParseError("x".to_string()).message(), "AI parse error: x");
    assert_eq!(
        RssRepositoryError::FetchError("x".to_string()).message(),
        "Failed to fetch RSS feed: x"
    );
    assert_eq!(
        RssRepositoryError::ParseError("x".to_string()).message(),
        "Failed to parse RSS feed: x"
    );
    assert_eq!(AppError::RssError("x".to_string()).message(), "RSS error: x");
    assert_eq!(AppError::SummaryError("x".to_string()).message(), "Summary error: x");
    assert_eq!(
        AppError::NotificationError("x".to_string()).message(),
        "Notification error: x"
    );
}

use rss_read_kun::gemini_response::{Candidate, Content, Part};
use rss_read_kun::{
    extract_first_parsable, extract_summary_from_response, extract_text_from_response,
    parse_json_response, strip_code_fences, try_parse_summary, AiServiceError, GeminiResponse,
    RssSummaryError,
};

fn response_of(texts_per_candidate: Vec<Vec<&str>>) -> GeminiResponse {
    GeminiResponse {
        candidates: texts_per_candidate
            .into_iter()
            .map(|texts| Candidate {
                content: Content {
                    parts: texts.into_iter().map(|t| Part { text: t.to_string() }).collect(),
                    role: "model".to_string(),
                },
                finish_reason: "STOP".to_string(),
            })
            .collect(),
    }
}

fn summary_json(message: &str, names: &[&str]) -> String {
    let categories: Vec<String> = names
        .iter()
        .map(|n| {
            format!(
                "{{\"{}\":{{\"articles\":[{{\"title\":\"t\",\"description\":\"d\",\"link\":\"l\"}}]}}}}",
                n
            )
        })
        .collect();
    format!(
        "{{\"message\":\"{}\",\"data\":{{\"total\":1,\"summary\":[{}]}}}}",
        message,
        categories.join(",")
    )
}

#[test]
fn strip_code_fences_removes_tagged_and_bare_fences() {
    assert_eq!(strip_code_fences("```json{\"a\":1}```"), "{\"a\":1}");
    assert_eq!(strip_code_fences("```json\n{}\n```"), "\n{}\n");
    assert_eq!(strip_code_fences("no fences"), "no fences");
    assert_eq!(strip_code_fences("``` ```json"), " ");
    assert_eq!(strip_code_fences("a```jsonb```c"), "abc");
}

#[test]
fn fenced_summary_parses_after_stripping() {
    let fenced = format!("```json\n{}\n```", summary_json("ok", &["tech"]));
    let parsed = try_parse_summary(&fenced).expect("fenced block should parse");
    assert_eq!(parsed.message, "ok");
    assert_eq!(parsed.data.summary.len(), 1);
    assert_eq!(parsed.data.summary[0].name, "tech");
}

#[test]
fn parsed_summary_carries_all_fields() {
    let text = "{\"message\":\"m\",\"data\":{\"total\":7,\"summary\":[{\"cat\":{\"category_count\":2,\"articles\":[{\"title\":\"a\",\"description\":\"b\",\"link\":\"c\"},{\"title\":\"x\",\"description\":\"y\",\"link\":\"z\"}]}}]}}";
    let parsed = try_parse_summary(text).expect("well-formed summary should parse");
    assert_eq!(parsed.message, "m");
    assert_eq!(parsed.data.total, 7);
    assert_eq!(parsed.data.total_articles(), 7);
    assert_eq!(parsed.data.category_count(), 1);
    let cat = &parsed.data.summary[0];
    assert_eq!(cat.get_name(), "cat");
    assert_eq!(cat.get_details().category_count, Some(2));
    assert_eq!(cat.get_details().article_count(), 2);
    assert_eq!(cat.details.articles[1].title, "x");
    assert_eq!(cat.details.articles[1].description, "y");
    assert_eq!(cat.details.articles[1].link, "z");
}

#[test]
fn multi_key_category_is_rejected() {
    let text = "{\"message\":\"m\",\"data\":{\"total\":1,\"summary\":[{\"one\":{\"articles\":[]},\"two\":{\"articles\":[]}}]}}";
    assert!(try_parse_summary(text).is_none());
}

#[test]
fn empty_category_object_is_rejected() {
    let text = "{\"message\":\"m\",\"data\":{\"total\":1,\"summary\":[{}]}}";
    assert!(try_parse_summary(text).is_none());
}

#[test]
fn category_count_may_be_null_or_absent() {
    let with_null = "{\"message\":\"m\",\"data\":{\"total\":0,\"summary\":[{\"c\":{\"category_count\":null,\"articles\":[]}}]}}";
    let parsed = try_parse_summary(with_null).expect("null count should parse");
    assert_eq!(parsed.data.summary[0].details.category_count, None);

    let absent = "{\"message\":\"m\",\"data\":{\"total\":0,\"summary\":[{\"c\":{\"articles\":[]}}]}}";
    let parsed = try_parse_summary(absent).expect("absent count should parse");
    assert_eq!(parsed.data.summary[0].details.category_count, None);

    let bad = "{\"message\":\"m\",\"data\":{\"total\":0,\"summary\":[{\"c\":{\"category_count\":\"2\",\"articles\":[]}}]}}";
    assert!(try_parse_summary(bad).is_none());
}

#[test]
fn missing_article_field_is_rejected() {
    let text = "{\"message\":\"m\",\"data\":{\"total\":1,\"summary\":[{\"c\":{\"articles\":[{\"title\":\"t\",\"description\":\"d\"}]}}]}}";
    assert!(try_parse_summary(text).is_none());
}

#[test]
fn unknown_top_level_fields_are_ignored() {
    let text = "{\"message\":\"m\",\"extra\":[1,2],\"data\":{\"total\":0,\"summary\":[],\"note\":null}}";
    let parsed = try_parse_summary(text).expect("extra fields should be ignored");
    assert_eq!(parsed.data.summary.len(), 0);
}

#[test]
fn first_parsable_part_wins_in_scan_order() {
    let winner = summary_json("third part wins", &["w"]);
    let later = summary_json("later also parses", &["x"]);
    let response = response_of(vec![
        vec!["not json", "{\"message\":\"shape is wrong\"}"],
        vec![&winner, &later],
    ]);
    let summary = extract_summary_from_response(&response).expect("third part should win");
    assert_eq!(summary.message, "third part wins");
    assert_eq!(summary.data.summary[0].name, "w");
}

#[test]
fn extraction_fails_when_no_part_parses() {
    let response = response_of(vec![vec!["nope", "{}"], vec!["{\"data\":{}}"]]);
    let err = extract_summary_from_response(&response).expect_err("nothing parses");
    match err {
        RssSummaryError::SummaryError(m) => {
            assert_eq!(m, "Failed to extract summary from response")
        }
        _ => panic!("wrong error variant"),
    }
}

#[test]
fn extract_text_returns_first_nonempty_part() {
    let response = response_of(vec![vec!["", ""], vec!["", "hello", "later"]]);
    let text = extract_text_from_response(&response).expect("a non-empty part exists");
    assert_eq!(text, "hello");
}

#[test]
fn extract_text_fails_when_all_parts_empty() {
    let response = response_of(vec![vec!["", ""]]);
    let err = extract_text_from_response(&response).expect_err("all parts empty");
    match err {
        AiServiceError::ResponseError(m) => {
            assert_eq!(m, "Failed to extract text from response")
        }
        _ => panic!("wrong error variant"),
    }
}

#[test]
fn parse_json_response_strips_fences_and_parses() {
    let value = parse_json_response("```json{\"k\":\"v\"}```").expect("fenced JSON parses");
    assert_eq!(value.get("k").and_then(|v| v.as_str()), Some("v"));
}

#[test]
fn parse_json_response_reports_parse_error() {
    let err = parse_json_response("not json at all").expect_err("garbage cannot parse");
    assert!(matches!(err, AiServiceError::ParseError(_)));
}

#[test]
fn scan_over_flattened_blocks_returns_first_parse() {
    let texts = vec![
        "garbage".to_string(),
        summary_json("first good", &["a"]),
        summary_json("second good", &["b"]),
    ];
    let parsed = extract_first_parsable(&texts).expect("one block parses");
    assert_eq!(parsed.message, "first good");

    let none = extract_first_parsable(&vec!["x".to_string()]);
    assert!(none.is_none());
    assert!(extract_first_parsable(&Vec::new()).is_none());
}

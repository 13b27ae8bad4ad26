use luminarys_sdk::http::{
    headers_from_json, http_get, http_post, http_request, try_headers_from_json, Header, HttpGetRequest,
    HttpPostRequest, HttpRequestOptions, HttpResponse,
};
use luminarys_sdk::types::SkillError;

fn pairs(hs: &[Header]) -> Vec<(String, String)> {
    hs.iter().map(|h| (h.name.clone(), h.value.clone())).collect()
}

fn owned(v: &[(&str, &str)]) -> Vec<(String, String)> {
    v.iter().map(|(a, b)| (a.to_string(), b.to_string())).collect()
}

#[test]
fn headers_keep_source_order() {
    let hs = headers_from_json(r#"{"Content-Type": "application/json", "X-B": "2", "Accept": "*/*"}"#);
    assert_eq!(
        pairs(&hs),
        owned(&[("Content-Type", "application/json"), ("X-B", "2"), ("Accept", "*/*")])
    );
}

#[test]
fn headers_without_brace_are_empty() {
    assert!(headers_from_json(r#""a": "b""#).is_empty());
    assert!(headers_from_json("").is_empty());
}

#[test]
fn headers_of_empty_object() {
    assert!(headers_from_json("{}").is_empty());
    assert!(headers_from_json("  { }  ").is_empty());
}

#[test]
fn headers_keep_escapes_raw() {
    let hs = headers_from_json(r#"{"a": "x\"y", "b\\c": "z"}"#);
    assert_eq!(pairs(&hs), owned(&[("a", r#"x\"y"#), (r#"b\\c"#, "z")]));
}

#[test]
fn headers_stop_at_closing_brace() {
    let hs = headers_from_json(r#"{"a":"1"} {"b":"2"}"#);
    assert_eq!(pairs(&hs), owned(&[("a", "1")]));
}

#[test]
fn headers_drop_a_key_without_value() {
    let hs = headers_from_json(r#"{"a": "1", "b""#);
    assert_eq!(pairs(&hs), owned(&[("a", "1")]));
}

#[test]
fn headers_with_unterminated_value_keep_the_rest() {
    let hs = headers_from_json(r#"{"a": "1", "b": "open"#);
    assert_eq!(pairs(&hs), owned(&[("a", "1"), ("b", "open")]));
}

#[test]
fn headers_with_non_ascii_text() {
    let hs = headers_from_json(r#"{"ключ": "значение", "é": "ü"}"#);
    assert_eq!(pairs(&hs), owned(&[("ключ", "значение"), ("é", "ü")]));
}

#[test]
fn headers_skip_non_string_values_up_to_next_quote() {
    // A value that is not a string is skipped up to the next quote, which
    // then opens the value.
    let hs = headers_from_json(r#"{"n": 5, "m": "x"}"#);
    assert_eq!(pairs(&hs), owned(&[("n", "m")]));
}

#[test]
fn headers_scan_that_runs_past_the_end_is_refused() {
    assert!(try_headers_from_json("{\"a\\").is_none());
    assert!(try_headers_from_json("{\"a\": \"b\\").is_none());
    let ok = try_headers_from_json(r#"{"a": "b"}"#).unwrap();
    assert_eq!(pairs(&ok), owned(&[("a", "b")]));
}

#[test]
fn header_new_copies_name_and_value() {
    let h = Header::new("X-Test", "yes");
    assert_eq!(h.name, "X-Test");
    assert_eq!(h.value, "yes");
}

fn ok_response(status: u32) -> HttpResponse {
    HttpResponse { status, body: b"hello".to_vec(), ..Default::default() }
}

#[test]
fn http_get_sends_request_and_returns_response() {
    let r = http_get("https://example.com", 1500, 4096, |q: HttpGetRequest| {
        assert_eq!(q.url, "https://example.com");
        assert_eq!(q.timeout_ms, 1500);
        assert_eq!(q.max_bytes, 4096);
        Ok(ok_response(200))
    })
    .unwrap();
    assert_eq!(r.status, 200);
    assert_eq!(r.body, b"hello".to_vec());
}

#[test]
fn http_get_reply_error_becomes_err() {
    let r = http_get("https://blocked", 0, 0, |_q: HttpGetRequest| {
        Ok(HttpResponse { error: "url not allowed".into(), ..Default::default() })
    });
    assert_eq!(r.unwrap_err().0, "url not allowed");
}

#[test]
fn http_get_transport_error_passes_through() {
    let r = http_get("https://x", 0, 0, |_q: HttpGetRequest| Err(SkillError("decode failed".into())));
    assert_eq!(r.unwrap_err().0, "decode failed");
}

#[test]
fn http_post_sends_body_and_content_type() {
    let r = http_post("https://api", b"{}".to_vec(), "application/json", 10, 20, |q: HttpPostRequest| {
        assert_eq!(q.url, "https://api");
        assert_eq!(q.body, b"{}".to_vec());
        assert_eq!(q.content_type, "application/json");
        assert_eq!(q.timeout_ms, 10);
        assert_eq!(q.max_bytes, 20);
        Ok(ok_response(201))
    })
    .unwrap();
    assert_eq!(r.status, 201);
}

#[test]
fn http_post_reply_error_becomes_err() {
    let r = http_post("https://api", vec![], "", 0, 0, |_q: HttpPostRequest| {
        Ok(HttpResponse { status: 500, error: "timeout".into(), ..Default::default() })
    });
    assert_eq!(r.unwrap_err().0, "timeout");
}

#[test]
fn http_request_hands_options_over_unchanged() {
    let opts = HttpRequestOptions {
        method: "PUT".into(),
        url: "https://h/x".into(),
        headers: vec![Header::new("A", "1"), Header::new("B", "2")],
        body: vec![1, 2, 3],
        follow_redirects: true,
        use_jar: true,
        ..Default::default()
    };
    let r = http_request(opts, |q: HttpRequestOptions| {
        assert_eq!(q.method, "PUT");
        assert_eq!(q.url, "https://h/x");
        assert_eq!(pairs(&q.headers), owned(&[("A", "1"), ("B", "2")]));
        assert_eq!(q.body, vec![1, 2, 3]);
        assert!(q.follow_redirects && q.use_jar);
        Ok(ok_response(204))
    })
    .unwrap();
    assert_eq!(r.status, 204);
}

#[test]
fn http_request_reply_error_becomes_err() {
    let r = http_request(HttpRequestOptions::default(), |_q: HttpRequestOptions| {
        Ok(HttpResponse { error: "bad method".into(), ..Default::default() })
    });
    assert_eq!(r.unwrap_err().0, "bad method");
}

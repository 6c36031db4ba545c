use croak::transport::http::{
    answer_is_yes, check_status, is_yes, method_from_upper, parse_method, plain_payload, retry_delay,
    Http, HttpError, HttpSetup, Method, RequestBody, SetupAction, HEADERS_QUESTION, HEADER_INVALID,
    HEADER_PROMPT, JSON_PROMPT, METHOD_INVALID, METHOD_PROMPT, NAME_PROMPT, QUERY_INVALID, QUERY_PROMPT,
    QUERY_QUESTION, URI_PROMPT,
};
use croak::transport::params::Params;
use croak::transport::TransportService;

fn ask(a: SetupAction) -> String {
    match a {
        SetupAction::Ask(p) => p,
        SetupAction::Retry { .. } => panic!("unexpected retry"),
        SetupAction::Finished(_) => panic!("unexpected finish"),
    }
}

fn finished(a: SetupAction) -> Http {
    match a {
        SetupAction::Finished(h) => h,
        _ => panic!("not finished"),
    }
}

fn map_of(p: &Option<Params>) -> Option<Vec<(String, String)>> {
    p.as_ref().map(|p| p.entries().clone())
}

#[test]
fn params_insert_replaces_in_place() {
    let mut p = Params::new();
    p.insert("a".to_string(), "1".to_string());
    p.insert("b".to_string(), "2".to_string());
    p.insert("a".to_string(), "3".to_string());
    assert_eq!(
        p.entries().clone(),
        vec![("a".to_string(), "3".to_string()), ("b".to_string(), "2".to_string())]
    );
    let d = p.duplicate();
    assert_eq!(d.entries(), p.entries());
}

#[test]
fn payload_underlines_title_up_to_a_hundred_dashes() {
    assert_eq!(plain_payload("Done", "ok"), "Done\n----\n\nok");
    assert_eq!(plain_payload("é", "b"), "é\n--\n\nb");
    let long = "t".repeat(150);
    let p = plain_payload(&long, "b");
    assert_eq!(p, format!("{}\n{}\n\nb", long, "-".repeat(100)));
    assert_eq!(plain_payload("", ""), "\n\n\n");
}

#[test]
fn request_carries_settings_and_body() {
    let mut headers = Params::new();
    headers.insert("Authorization".to_string(), "Bearer token".to_string());
    let mut query = Params::new();
    query.insert("source".to_string(), "croak".to_string());
    let h = Http::new(
        "notify".to_string(),
        Method::PUT,
        "https://example.com/notify".to_string(),
        Some(headers),
        Some(query),
        Some(true),
    );
    let r = h.request("T", "B");
    assert_eq!(r.timeout_secs, 10);
    assert_eq!(r.method, Method::PUT);
    assert_eq!(r.uri, "https://example.com/notify");
    assert_eq!(r.headers, vec![("Authorization".to_string(), "Bearer token".to_string())]);
    assert_eq!(r.query, vec![("source".to_string(), "croak".to_string())]);
    match r.body {
        RequestBody::Json { title, body } => {
            assert_eq!(title, "T");
            assert_eq!(body, "B");
        },
        RequestBody::Text(_) => panic!("expected JSON"),
    }
    let plain = Http::new("n".to_string(), Method::POST, "u".to_string(), None, None, None);
    let r = plain.request("Hi", "there");
    assert!(r.headers.is_empty() && r.query.is_empty());
    match r.body {
        RequestBody::Text(t) => assert_eq!(t, "Hi\n--\n\nthere"),
        RequestBody::Json { .. } => panic!("expected text"),
    }
    assert_eq!(plain.name(), "n");
    assert_eq!(plain.uri(), "u");
    assert_eq!(plain.method(), Method::POST);
    assert_eq!(plain.json_body(), None);
}

#[test]
fn only_status_ok_is_accepted() {
    assert!(check_status(200).is_ok());
    assert!(matches!(check_status(204), Err(HttpError::UnexpectedStatus(204))));
    assert!(matches!(check_status(500), Err(HttpError::UnexpectedStatus(500))));
}

#[test]
fn retry_delays_double() {
    assert_eq!(retry_delay(0, 3, 100), Some(100));
    assert_eq!(retry_delay(1, 3, 100), Some(200));
    assert_eq!(retry_delay(2, 3, 100), None);
    assert_eq!(retry_delay(0, 1, 100), None);
    assert_eq!(retry_delay(70, 100, 100), Some(u64::MAX));
}

#[test]
fn methods_and_answers() {
    assert_eq!(method_from_upper("POST"), Some(Method::POST));
    assert_eq!(method_from_upper("post"), None);
    assert_eq!(parse_method("post"), Some(Method::POST));
    assert_eq!(parse_method("Patch"), Some(Method::PATCH));
    assert_eq!(parse_method("put"), Some(Method::PUT));
    assert_eq!(parse_method("GET"), None);
    assert!(is_yes("yes") && is_yes(" y ") && !is_yes("YES") && !is_yes("no"));
    assert!(answer_is_yes("YES") && answer_is_yes("Y") && !answer_is_yes("nope") && !answer_is_yes(""));
}

#[test]
fn setup_without_extras() {
    let (mut s, a) = HttpSetup::new();
    assert_eq!(ask(a), NAME_PROMPT);
    assert_eq!(ask(s.feed("  notify  ")), URI_PROMPT);
    assert_eq!(ask(s.feed("https://example.com")), METHOD_PROMPT);
    match s.feed("GET") {
        SetupAction::Retry { message, prompt } => {
            assert_eq!(message, METHOD_INVALID);
            assert_eq!(prompt, METHOD_PROMPT);
        },
        _ => panic!("GET accepted"),
    }
    assert_eq!(ask(s.feed("patch")), JSON_PROMPT);
    assert_eq!(ask(s.feed("")), HEADERS_QUESTION);
    assert_eq!(ask(s.feed("no")), QUERY_QUESTION);
    let h = finished(s.feed(""));
    assert_eq!(h.name(), "notify");
    assert_eq!(h.uri(), "https://example.com");
    assert_eq!(h.method(), Method::PATCH);
    assert_eq!(h.json_body(), Some(false));
    assert!(h.headers().is_none());
    assert!(h.query_params().is_none());
}

#[test]
fn setup_with_headers_and_query() {
    let (mut s, _) = HttpSetup::new();
    s.feed("n");
    s.feed("u");
    s.feed("POST");
    assert_eq!(ask(s.feed("y")), HEADERS_QUESTION);
    assert_eq!(ask(s.feed("Yes")), HEADER_PROMPT);
    assert_eq!(ask(s.feed("Authorization: Bearer a:b")), HEADER_PROMPT);
    match s.feed("no colon here") {
        SetupAction::Retry { message, prompt } => {
            assert_eq!(message, HEADER_INVALID);
            assert_eq!(prompt, HEADER_PROMPT);
        },
        _ => panic!("header without colon accepted"),
    }
    assert_eq!(ask(s.feed(" X-Key :  1 ")), HEADER_PROMPT);
    assert_eq!(ask(s.feed("X-Key: 2")), HEADER_PROMPT);
    assert_eq!(ask(s.feed("   ")), QUERY_QUESTION);
    assert_eq!(ask(s.feed("y")), QUERY_PROMPT);
    match s.feed("bad") {
        SetupAction::Retry { message, prompt } => {
            assert_eq!(message, QUERY_INVALID);
            assert_eq!(prompt, QUERY_PROMPT);
        },
        _ => panic!("parameter without = accepted"),
    }
    assert_eq!(ask(s.feed("source = croak")), QUERY_PROMPT);
    let h = finished(s.feed(""));
    assert_eq!(h.json_body(), Some(true));
    assert_eq!(
        map_of(h.headers()),
        Some(vec![
            ("Authorization".to_string(), "Bearer a:b".to_string()),
            ("X-Key".to_string(), "2".to_string()),
        ])
    );
    assert_eq!(map_of(h.query_params()), Some(vec![("source".to_string(), "croak".to_string())]));
    let again = finished(s.feed("anything"));
    assert_eq!(again.name(), "n");
}

#[test]
fn setup_with_empty_header_list() {
    let (mut s, _) = HttpSetup::new();
    s.feed("n");
    s.feed("u");
    s.feed("put");
    s.feed("no");
    s.feed("y");
    assert_eq!(ask(s.feed("")), QUERY_QUESTION);
    let h = finished(s.feed("n"));
    assert_eq!(map_of(h.headers()), Some(vec![]));
    assert!(h.query_params().is_none());
}

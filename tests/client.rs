use fetch_client::{
    complete, json_result, post, resolve_url, starts_with, Headers, HttpClient, HttpError,
    HttpMethod, HttpRequest, HttpResponse, TransportOutcome, TransportRequest,
};

fn header_of(t: &TransportRequest, name: &str) -> Option<String> {
    t.headers.iter().find(|(k, _)| k == name).map(|(_, v)| v.clone())
}

fn received(status: u16, body: &str) -> TransportOutcome {
    TransportOutcome::Received { status, body: Some(body.to_string()) }
}

fn items_value() -> serde_json::Value {
    let mut m = serde_json::Map::new();
    m.insert("items".to_string(), serde_json::Value::Array(Vec::new()));
    serde_json::Value::Object(m)
}

#[test]
fn method_names_on_the_wire() {
    assert_eq!(HttpMethod::GET.as_str(), "GET");
    assert_eq!(HttpMethod::POST.as_str(), "POST");
    assert_eq!(HttpMethod::PUT.as_str(), "PUT");
    assert_eq!(HttpMethod::PATCH.as_str(), "PATCH");
    assert_eq!(HttpMethod::DELETE.as_str(), "DELETE");
}

#[test]
fn new_request_is_bare() {
    let t = HttpRequest::new(HttpMethod::PUT, "not a url").into_transport();
    assert_eq!(t.method, HttpMethod::PUT);
    assert_eq!(t.url, "not a url");
    assert!(t.headers.is_empty());
    assert!(t.body.is_none());
}

#[test]
fn later_header_overrides_earlier() {
    let t = HttpRequest::new(HttpMethod::GET, "https://a/")
        .header("X-A", "1")
        .header("X-B", "2")
        .header("X-A", "3")
        .into_transport();
    assert_eq!(t.headers.len(), 2);
    assert_eq!(header_of(&t, "X-A").as_deref(), Some("3"));
    assert_eq!(header_of(&t, "X-B").as_deref(), Some("2"));
}

#[test]
fn bearer_sets_authorization() {
    let t = HttpRequest::new(HttpMethod::GET, "https://a/").bearer("abc").into_transport();
    assert_eq!(header_of(&t, "Authorization").as_deref(), Some("Bearer abc"));
}

#[test]
fn json_body_is_encoded_and_declared() {
    let mut m = serde_json::Map::new();
    m.insert("name".to_string(), serde_json::Value::String("Ana".to_string()));
    m.insert("n".to_string(), serde_json::Value::from(2));
    let payload = serde_json::Value::Object(m);
    let t = HttpRequest::new(HttpMethod::POST, "https://a/").json(&payload).into_transport();
    assert_eq!(header_of(&t, "Content-Type").as_deref(), Some("application/json"));
    assert_eq!(t.body.as_deref(), Some(serde_json::to_string(&payload).unwrap().as_str()));
    assert_eq!(t.body.as_deref(), Some("{\"n\":2,\"name\":\"Ana\"}"));
}

#[test]
fn json_body_of_null() {
    let t = HttpRequest::new(HttpMethod::POST, "https://a/")
        .json(&serde_json::Value::Null)
        .into_transport();
    assert_eq!(t.body.as_deref(), Some("null"));
    assert_eq!(header_of(&t, "Content-Type").as_deref(), Some("application/json"));
}

#[test]
fn raw_body_replaces_json_body() {
    let t = HttpRequest::new(HttpMethod::POST, "https://a/")
        .json(&serde_json::Value::Bool(true))
        .body("plain")
        .into_transport();
    assert_eq!(t.body.as_deref(), Some("plain"));
    assert_eq!(header_of(&t, "Content-Type").as_deref(), Some("application/json"));
}

#[test]
fn timeout_is_not_handed_to_transport() {
    let t = HttpRequest::new(HttpMethod::GET, "https://a/").timeout(500).body("x").into_transport();
    assert_eq!(t.body.as_deref(), Some("x"));
    assert_eq!(t.url, "https://a/");
}

#[test]
fn success_statuses_give_response() {
    for status in [200u16, 201, 204, 299] {
        let r = complete(received(status, "ok"));
        let resp = r.unwrap();
        assert_eq!(resp.status, status);
        assert_eq!(resp.text(), "ok");
        assert!(resp.is_success());
    }
}

#[test]
fn other_statuses_give_error_with_body() {
    for status in [100u16, 199, 300, 301, 404, 500, 599] {
        let e = complete(received(status, "boom")).err().unwrap();
        assert_eq!(e.status, status);
        assert_eq!(e.message, "boom");
    }
}

#[test]
fn unreadable_body_gives_status_zero() {
    let e = complete(TransportOutcome::Received { status: 200, body: None }).err().unwrap();
    assert_eq!(e.status, 0);
    assert_eq!(e.message, "invalid response");
}

#[test]
fn empty_body_is_kept() {
    let resp = complete(received(204, "")).unwrap();
    assert_eq!(resp.text(), "");
}

#[test]
fn absolute_path_overrides_base() {
    let c = HttpClient::new("https://api.test/v1/");
    assert_eq!(c.build_url("https://x/y"), "https://x/y");
    assert_eq!(c.build_url("http://x/y"), "http://x/y");
    assert_eq!(HttpClient::new("").build_url("https://x/y"), "https://x/y");
}

#[test]
fn relative_path_joins_base_once() {
    assert_eq!(HttpClient::new("https://api.test/").build_url("/y"), "https://api.test/y");
    assert_eq!(HttpClient::new("https://api.test").build_url("/y"), "https://api.test/y");
    assert_eq!(HttpClient::new("https://api.test///").build_url("/y"), "https://api.test/y");
    assert_eq!(HttpClient::new("https://api.test").build_url("y"), "https://api.testy");
    assert_eq!(resolve_url("/", "/a"), "/a");
    assert_eq!(resolve_url("https://b/", "httpx://z"), "https://bhttpx://z");
}

#[test]
fn prefix_test() {
    assert!(starts_with("https://x", "https://"));
    assert!(starts_with("abc", ""));
    assert!(!starts_with("http:/", "http://"));
    assert!(!starts_with("ftp://x", "http://"));
}

#[test]
fn response_json_twice_is_equal() {
    let resp = HttpResponse { status: 200, body: "{\"a\":[1,2,{\"b\":null}]}".to_string() };
    let first = resp.json().unwrap();
    let second = resp.json().unwrap();
    assert_eq!(first, second);
    assert_eq!(first["a"][1], serde_json::Value::from(2));
    let bad = HttpResponse { status: 200, body: "{".to_string() };
    assert!(bad.json().is_err());
    assert!(bad.json().is_err());
}

#[test]
fn client_get_with_bearer_succeeds() {
    let client = HttpClient::new("https://api.test").with_bearer("tok");
    let t = client.get("/items").into_transport();
    assert_eq!(t.method, HttpMethod::GET);
    assert_eq!(t.url, "https://api.test/items");
    assert_eq!(header_of(&t, "Authorization").as_deref(), Some("Bearer tok"));
    assert!(t.body.is_none());
    let resp = complete(received(200, "{\"items\":[]}")).unwrap();
    assert_eq!(resp.status, 200);
    assert_eq!(resp.json().unwrap(), items_value());
}

#[test]
fn client_get_not_found_fails() {
    let client = HttpClient::new("https://api.test").with_bearer("tok");
    let _t = client.get("/items").into_transport();
    let e = complete(received(404, "not found")).err().unwrap();
    assert_eq!(e.status, 404);
    assert_eq!(e.message, "not found");
}

#[test]
fn transport_failure_gives_status_zero() {
    let e = complete(TransportOutcome::Failed).err().unwrap();
    assert_eq!(e.status, 0);
    assert_eq!(e.message, "request failed");
}

#[test]
fn invalid_json_body_is_parse_error() {
    let _t = HttpRequest::new(HttpMethod::GET, "https://api.test/widget").into_transport();
    let e = json_result(complete(received(200, "<html>"))).err().unwrap();
    assert_eq!(e.status, 0);
    assert!(e.message.contains("JSON parse error"));
    assert!(e.message.len() > "JSON parse error: ".len());
}

#[test]
fn json_result_passes_errors_and_values() {
    let e = json_result(complete(received(500, "down"))).err().unwrap();
    assert_eq!(e.status, 500);
    assert_eq!(e.message, "down");
    let v = json_result(complete(received(200, "{\"items\":[]}"))).unwrap();
    assert_eq!(v, items_value());
}

#[test]
fn client_defaults_are_copied_per_request() {
    let client = HttpClient::new("https://api.test").with_header("X-Team", "a");
    let first = client.post("/a").header("X-Team", "b").into_transport();
    let second = client.get("/b").into_transport();
    assert_eq!(header_of(&first, "X-Team").as_deref(), Some("b"));
    assert_eq!(header_of(&second, "X-Team").as_deref(), Some("a"));
    assert_eq!(first.method, HttpMethod::POST);
}

#[test]
fn client_verbs_pick_methods() {
    let client = HttpClient::new("https://h/").with_header("A", "1").with_header("A", "2");
    let t = client.put("/p").into_transport();
    assert_eq!((t.method, t.url.as_str()), (HttpMethod::PUT, "https://h/p"));
    assert_eq!(header_of(&t, "A").as_deref(), Some("2"));
    assert_eq!(t.headers.len(), 1);
    assert_eq!(client.patch("/q").into_transport().method, HttpMethod::PATCH);
    assert_eq!(client.delete("/r").into_transport().method, HttpMethod::DELETE);
    assert_eq!(client.post("https://other/x").into_transport().url, "https://other/x");
}

#[test]
fn free_post_starts_post_request() {
    let t = post("https://a/b").into_transport();
    assert_eq!(t.method, HttpMethod::POST);
    assert_eq!(t.url, "https://a/b");
}

#[test]
fn headers_lookup() {
    let h = Headers::new().insert("a", "1").insert("b", "2").insert("a", "3");
    assert_eq!(h.get("a").as_deref(), Some("3"));
    assert_eq!(h.get("b").as_deref(), Some("2"));
    assert_eq!(h.get("c"), None);
    assert_eq!(h.to_pairs(), vec![("a".to_string(), "3".to_string()), ("b".to_string(), "2".to_string())]);
}

#[test]
fn error_text_and_constructors() {
    let e = HttpError::new(404, "not found");
    assert_eq!(e.to_string(), "HTTP 404 - not found");
    assert_eq!(HttpError::new(0, "").to_string(), "HTTP 0 - ");
    let err = serde_json::from_str::<serde_json::Value>("[1,").unwrap_err();
    let p = HttpError::json_parse(&err);
    assert_eq!(p.status, 0);
    assert_eq!(p.message, format!("JSON parse error: {}", err));
}

#[test]
fn json_text_sets_body_and_type() {
    let t = HttpRequest::new(HttpMethod::PATCH, "https://a/")
        .header("Content-Type", "text/plain")
        .json_text("[1,2]".to_string())
        .into_transport();
    assert_eq!(t.body.as_deref(), Some("[1,2]"));
    assert_eq!(header_of(&t, "Content-Type").as_deref(), Some("application/json"));
    assert_eq!(t.headers.len(), 1);
}

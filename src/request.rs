use vstd::prelude::*;
use crate::headers::{names_unique, pairs_view, Headers};
use crate::json::{encode_json, json_text_of};
use crate::method::HttpMethod;
use crate::transport::{TransportRequest, TransportSpec};

verus! {

/// What a request builder has accumulated.
pub ghost struct RequestSpec {
    pub method: HttpMethod,
    pub url: Seq<char>,
    pub headers: Map<Seq<char>, Seq<char>>,
    pub body: Option<Seq<char>>,
    pub timeout: Option<u32>,
}

/// An optional string as an optional sequence of characters.
pub open spec fn opt_view(o: Option<String>) -> Option<Seq<char>> {
    match o {
        Some(s) => Some(s@),
        None => None,
    }
}

/// The value of the `Authorization` header for a bearer token.
pub open spec fn bearer_value(token: Seq<char>) -> Seq<char> {
    "Bearer "@ + token
}

/// `r` with one header set.
pub open spec fn with_header(r: RequestSpec, name: Seq<char>, value: Seq<char>) -> RequestSpec {
    RequestSpec { headers: r.headers.insert(name, value), ..r }
}

/// `r` with a JSON text as its body, declared as such.
pub open spec fn with_json_text(r: RequestSpec, text: Seq<char>) -> RequestSpec {
    RequestSpec {
        body: Some(text),
        headers: r.headers.insert("Content-Type"@, "application/json"@),
        ..r
    }
}

/// What giving `r` a JSON body made from `payload` yields: the encoded text
/// where serde_json writes one, and `r` unchanged where it refuses.
pub open spec fn with_json(r: RequestSpec, payload: serde_json::Value) -> RequestSpec {
    match json_text_of(payload) {
        Some(text) => with_json_text(r, text),
        None => r,
    }
}

/// What the transport is handed for a request: everything but the timeout
/// hint.
pub open spec fn transport_of(r: RequestSpec) -> TransportSpec {
    TransportSpec { method: r.method, url: r.url, headers: r.headers, body: r.body }
}

/// A request given a JSON body that serde_json could write hands the
/// transport that exact text as its body, under
/// `Content-Type: application/json`.
pub proof fn lemma_json_body_sent(r: RequestSpec, payload: serde_json::Value)
    requires
        json_text_of(payload) is Some,
    ensures
        transport_of(with_json(r, payload)).body == json_text_of(payload),
        transport_of(with_json(r, payload)).headers.contains_key("Content-Type"@),
        transport_of(with_json(r, payload)).headers["Content-Type"@] == "application/json"@,
{
}

/// One request under construction. Each call returns the builder with the
/// new setting; `into_transport` consumes it, so it serves one exchange.
pub struct HttpRequest {
    url: String,
    method: HttpMethod,
    headers: Headers,
    body: Option<String>,
    timeout: Option<u32>,
}

impl View for HttpRequest {
    type V = RequestSpec;

    closed spec fn view(&self) -> RequestSpec {
        RequestSpec {
            method: self.method,
            url: self.url@,
            headers: self.headers@,
            body: opt_view(self.body),
            timeout: self.timeout,
        }
    }
}

impl HttpRequest {
    /// A request with no headers, no body and no timeout. The URL is not
    /// checked here: a malformed one fails at the transport.
    pub fn new(method: HttpMethod, url: &str) -> (r: HttpRequest)
        ensures
            r@ == (RequestSpec {
                method,
                url: url@,
                headers: Map::empty(),
                body: None,
                timeout: None,
            }),
    {
        HttpRequest {
            url: url.to_owned(),
            method,
            headers: Headers::new(),
            body: None,
            timeout: None,
        }
    }

    /// Sets one header; a later call with the same name overrides it.
    pub fn header(self, key: &str, value: &str) -> (r: HttpRequest)
        ensures
            r@ == with_header(self@, key@, value@),
    {
        let HttpRequest { url, method, headers, body, timeout } = self;
        HttpRequest { url, method, headers: headers.insert(key, value), body, timeout }
    }

    /// Sets `Authorization: Bearer <token>`.
    pub fn bearer(self, token: &str) -> (r: HttpRequest)
        ensures
            r@ == with_header(self@, "Authorization"@, bearer_value(token@)),
    {
        let mut value = String::from_str("Bearer ");
        value.append(token);
        self.header("Authorization", value.as_str())
    }

    /// Encodes `data` as the body and sets `Content-Type: application/json`.
    /// Where serde_json refuses to encode it, the request is left unchanged:
    /// no body is set and no header is added.
    pub fn json(self, data: &serde_json::Value) -> (r: HttpRequest)
        ensures
            r@ == with_json(self@, *data),
    {
        match encode_json(data) {
            Ok(text) => self.json_text(text),
            Err(_) => self,
        }
    }

    /// Sets an already encoded JSON text as the body, with
    /// `Content-Type: application/json`.
    pub fn json_text(self, text: String) -> (r: HttpRequest)
        ensures
            r@ == with_json_text(self@, text@),
    {
        let HttpRequest { url, method, headers, body: _, timeout } = self;
        HttpRequest {
            url,
            method,
            headers: headers.insert("Content-Type", "application/json"),
            body: Some(text),
            timeout,
        }
    }

    /// Sets a raw body, replacing any earlier one.
    pub fn body(self, data: &str) -> (r: HttpRequest)
        ensures
            r@ == (RequestSpec { body: Some(data@), ..self@ }),
    {
        let HttpRequest { url, method, headers, body: _, timeout } = self;
        HttpRequest { url, method, headers, body: Some(data.to_owned()), timeout }
    }

    /// Records a timeout hint in milliseconds. The transport is not bound
    /// by it: it is not part of what `into_transport` hands over.
    pub fn timeout(self, ms: u32) -> (r: HttpRequest)
        ensures
            r@ == (RequestSpec { timeout: Some(ms), ..self@ }),
    {
        let HttpRequest { url, method, headers, body, timeout: _ } = self;
        HttpRequest { url, method, headers, body, timeout: Some(ms) }
    }

    /// The description of this request that the transport is handed; the
    /// builder is used up.
    pub fn into_transport(self) -> (t: TransportRequest)
        ensures
            t@ == transport_of(self@),
            names_unique(pairs_view(t.headers@)),
    {
        TransportRequest {
            method: self.method,
            url: self.url,
            headers: self.headers.to_pairs(),
            body: self.body,
        }
    }
}

/// Starts a POST request to `url`.
pub fn post(url: &str) -> (r: HttpRequest)
    ensures
        r@ == (RequestSpec {
            method: HttpMethod::POST,
            url: url@,
            headers: Map::empty(),
            body: None,
            timeout: None,
        }),
{
    HttpRequest::new(HttpMethod::POST, url)
}

} // verus!

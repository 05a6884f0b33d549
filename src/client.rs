use vstd::prelude::*;
use crate::headers::{pairs_map, pairs_view, Headers};
use crate::method::HttpMethod;
use crate::request::{bearer_value, HttpRequest, RequestSpec};
use crate::url::{has_scheme, resolve_url, resolved_url};

verus! {

/// A client as mathematical values.
pub ghost struct ClientSpec {
    pub base_url: Seq<char>,
    pub headers: Map<Seq<char>, Seq<char>>,
}

/// The request that a client starts for `method` and `path`: the resolved
/// URL, the client's default headers, no body, no timeout.
pub open spec fn client_request(c: ClientSpec, method: HttpMethod, path: Seq<char>) -> RequestSpec {
    RequestSpec {
        method,
        url: resolved_url(c.base_url, path),
        headers: c.headers,
        body: None,
        timeout: None,
    }
}

/// A base URL and default headers, shared by the requests it starts. Starting
/// a request copies the defaults: the client itself never changes by it.
pub struct HttpClient {
    base_url: String,
    default_headers: Headers,
}

impl View for HttpClient {
    type V = ClientSpec;

    closed spec fn view(&self) -> ClientSpec {
        ClientSpec { base_url: self.base_url@, headers: self.default_headers@ }
    }
}

impl HttpClient {
    pub fn new(base_url: &str) -> (r: HttpClient)
        ensures
            r@ == (ClientSpec { base_url: base_url@, headers: Map::empty() }),
    {
        HttpClient { base_url: base_url.to_owned(), default_headers: Headers::new() }
    }

    /// Adds a default header; a later call with the same name overrides it.
    pub fn with_header(self, key: &str, value: &str) -> (r: HttpClient)
        ensures
            r@ == (ClientSpec { headers: self@.headers.insert(key@, value@), ..self@ }),
    {
        let HttpClient { base_url, default_headers } = self;
        HttpClient { base_url, default_headers: default_headers.insert(key, value) }
    }

    /// Adds the default header `Authorization: Bearer <token>`.
    pub fn with_bearer(self, token: &str) -> (r: HttpClient)
        ensures
            r@ == (ClientSpec {
                headers: self@.headers.insert("Authorization"@, bearer_value(token@)),
                ..self@
            }),
    {
        let mut value = String::from_str("Bearer ");
        value.append(token);
        self.with_header("Authorization", value.as_str())
    }

    /// The URL for `path`: `path` itself where it starts with `http://` or
    /// `https://`, else the base URL without trailing `/` followed by `path`.
    pub fn build_url(&self, path: &str) -> (r: String)
        ensures
            r@ == resolved_url(self@.base_url, path@),
            has_scheme(path@) ==> r@ == path@,
    {
        resolve_url(self.base_url.as_str(), path)
    }

    fn create_request(&self, method: HttpMethod, path: &str) -> (r: HttpRequest)
        ensures
            r@ == client_request(self@, method, path@),
    {
        let url = self.build_url(path);
        let mut req = HttpRequest::new(method, url.as_str());
        let pairs = self.default_headers.to_pairs();
        let ghost s = pairs_view(pairs@);
        let mut i: usize = 0;
        while i < pairs.len()
            invariant
                s == pairs_view(pairs@),
                0 <= i <= pairs@.len(),
                req@ == (RequestSpec {
                    headers: pairs_map(s.subrange(0, i as int)),
                    ..client_request(self@, method, path@)
                }),
            decreases pairs@.len() - i,
        {
            req = req.header(pairs[i].0.as_str(), pairs[i].1.as_str());
            assert(s.subrange(0, i + 1).drop_last() =~= s.subrange(0, i as int));
            i = i + 1;
        }
        assert(s.subrange(0, i as int) =~= s);
        req
    }

    pub fn get(&self, path: &str) -> (r: HttpRequest)
        ensures
            r@ == client_request(self@, HttpMethod::GET, path@),
    {
        self.create_request(HttpMethod::GET, path)
    }

    pub fn post(&self, path: &str) -> (r: HttpRequest)
        ensures
            r@ == client_request(self@, HttpMethod::POST, path@),
    {
        self.create_request(HttpMethod::POST, path)
    }

    pub fn put(&self, path: &str) -> (r: HttpRequest)
        ensures
            r@ == client_request(self@, HttpMethod::PUT, path@),
    {
        self.create_request(HttpMethod::PUT, path)
    }

    pub fn patch(&self, path: &str) -> (r: HttpRequest)
        ensures
            r@ == client_request(self@, HttpMethod::PATCH, path@),
    {
        self.create_request(HttpMethod::PATCH, path)
    }

    pub fn delete(&self, path: &str) -> (r: HttpRequest)
        ensures
            r@ == client_request(self@, HttpMethod::DELETE, path@),
    {
        self.create_request(HttpMethod::DELETE, path)
    }
}

} // verus!

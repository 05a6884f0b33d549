use vstd::prelude::*;
use crate::error::{HttpError, HttpResult};
use crate::json::{decode_json, json_value_of};

verus! {

/// Whether a status code counts as success: exactly the range [200, 300).
pub open spec fn is_success_status(status: u16) -> bool {
    200 <= status < 300
}

/// Whether `r` is what decoding `text` as JSON gives: the value serde_json
/// reads, or an error exactly where it reads none.
pub open spec fn decodes_to(text: Seq<char>, r: Result<serde_json::Value, serde_json::Error>) -> bool {
    &&& (r is Ok <==> json_value_of(text) is Some)
    &&& (r is Ok ==> json_value_of(text) == Some(r->Ok_0))
}

/// A completed exchange whose status was a success.
pub struct HttpResponse {
    pub status: u16,
    pub body: String,
}

impl HttpResponse {
    /// Decodes the body as JSON. Depends on the body alone, so two calls give
    /// equal results.
    pub fn json(&self) -> (r: Result<serde_json::Value, serde_json::Error>)
        ensures
            decodes_to(self.body@, r),
    {
        decode_json(self.body.as_str())
    }

    pub fn text(&self) -> (r: &str)
        ensures
            r@ == self.body@,
    {
        self.body.as_str()
    }

    pub fn is_success(&self) -> (r: bool)
        ensures
            r == is_success_status(self.status),
    {
        self.status >= 200 && self.status < 300
    }
}

/// Decodes the body of a successful exchange as JSON. An error of the
/// exchange is passed on as it is; a body that is not JSON gives an error
/// with status 0 whose message starts with `JSON parse error: `.
pub fn json_result(result: HttpResult<HttpResponse>) -> (r: HttpResult<serde_json::Value>)
    ensures
        match result {
            Err(e) => r == Err::<serde_json::Value, HttpError>(e),
            Ok(resp) => match json_value_of(resp.body@) {
                Some(v) => r == Ok::<serde_json::Value, HttpError>(v),
                None => r is Err && r->Err_0.status == 0 && "JSON parse error: "@.is_prefix_of(
                    r->Err_0.message@,
                ),
            },
        },
{
    match result {
        Err(e) => Err(e),
        Ok(resp) => match resp.json() {
            Ok(v) => Ok(v),
            Err(err) => {
                let e = HttpError::json_parse(&err);
                Err(e)
            },
        },
    }
}

/// Decoding the same response twice gives structurally equal results.
pub proof fn lemma_json_idempotent(
    resp: HttpResponse,
    first: Result<serde_json::Value, serde_json::Error>,
    second: Result<serde_json::Value, serde_json::Error>,
)
    requires
        decodes_to(resp.body@, first),
        decodes_to(resp.body@, second),
    ensures
        first is Ok <==> second is Ok,
        first is Ok ==> first->Ok_0 == second->Ok_0,
{
}

} // verus!

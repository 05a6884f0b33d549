use vstd::prelude::*;
use crate::error::{HttpError, HttpResult};
use crate::headers::{pairs_map, pairs_view};
use crate::method::HttpMethod;
use crate::request::opt_view;
use crate::response::{is_success_status, HttpResponse};

verus! {

/// The request description handed to the host's transport.
pub struct TransportRequest {
    pub method: HttpMethod,
    pub url: String,
    /// Header pairs; no name occurs twice.
    pub headers: Vec<(String, String)>,
    pub body: Option<String>,
}

/// A transport request as mathematical values.
pub ghost struct TransportSpec {
    pub method: HttpMethod,
    pub url: Seq<char>,
    pub headers: Map<Seq<char>, Seq<char>>,
    pub body: Option<Seq<char>>,
}

impl View for TransportRequest {
    type V = TransportSpec;

    open spec fn view(&self) -> TransportSpec {
        TransportSpec {
            method: self.method,
            url: self.url@,
            headers: pairs_map(pairs_view(self.headers@)),
            body: opt_view(self.body),
        }
    }
}

/// What the transport reported back.
pub enum TransportOutcome {
    /// The exchange never produced a response: network unreachable, name
    /// resolution failed, the URL was refused, the exchange was aborted.
    Failed,
    /// A response arrived with `status`; `body` is its full text, or `None`
    /// where reading the body as text failed.
    Received { status: u16, body: Option<String> },
}

/// The message of an error from a failed transport.
pub open spec fn request_failed_message() -> Seq<char> {
    "request failed"@
}

/// The message of an error from a body that could not be read.
pub open spec fn invalid_response_message() -> Seq<char> {
    "invalid response"@
}

/// Whether `r` is the result that `outcome` calls for: a success status
/// gives the response with the body text; any other status gives an error
/// with that status and the body text as its message; a failed transport or
/// an unreadable body gives an error with status 0.
pub open spec fn settles_as(outcome: TransportOutcome, r: HttpResult<HttpResponse>) -> bool {
    match outcome {
        TransportOutcome::Failed => r is Err && r->Err_0.status == 0 && r->Err_0.message@
            == request_failed_message(),
        TransportOutcome::Received { body: None, .. } => r is Err && r->Err_0.status == 0
            && r->Err_0.message@ == invalid_response_message(),
        TransportOutcome::Received { status, body: Some(text) } => if is_success_status(status) {
            r is Ok && r->Ok_0.status == status && r->Ok_0.body@ == text@
        } else {
            r is Err && r->Err_0.status == status && r->Err_0.message@ == text@
        },
    }
}

/// Turns what the transport reported into the result of the exchange.
/// Exactly the statuses in [200, 300) succeed.
pub fn complete(outcome: TransportOutcome) -> (r: HttpResult<HttpResponse>)
    ensures
        settles_as(outcome, r),
        r is Ok ==> is_success_status(r->Ok_0.status),
{
    match outcome {
        TransportOutcome::Failed => Err(HttpError::new(0, "request failed")),
        TransportOutcome::Received { body: None, .. } => Err(
            HttpError::new(0, "invalid response"),
        ),
        TransportOutcome::Received { status, body: Some(text) } => {
            if status >= 200 && status < 300 {
                Ok(HttpResponse { status, body: text })
            } else {
                Err(HttpError { status, message: text })
            }
        },
    }
}

} // verus!

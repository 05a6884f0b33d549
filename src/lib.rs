//! A small HTTP client: a fluent request builder, a client with shared
//! defaults, a response wrapper and one error type for every failure.
//!
//! The network exchange itself is done by the host's transport. This crate
//! decides everything around it: what request description is handed to the
//! transport, and how the transport's outcome becomes a response or an error.

mod client;
mod error;
mod headers;
mod json;
mod method;
mod request;
mod response;
mod transport;
mod url;

pub use client::{client_request, ClientSpec, HttpClient};
pub use error::{error_text, json_parse_message, HttpError, HttpResult};
pub use headers::{names_unique, pairs_map, pairs_view, Headers};
pub use json::{json_text_of, json_value_of};
pub use method::{method_name, HttpMethod};
pub use request::{
    bearer_value, lemma_json_body_sent, opt_view, post, transport_of, with_header, with_json,
    with_json_text, HttpRequest, RequestSpec,
};
pub use response::{
    decodes_to, is_success_status, json_result, lemma_json_idempotent, HttpResponse,
};
pub use transport::{
    complete, invalid_response_message, request_failed_message, settles_as, TransportOutcome,
    TransportRequest, TransportSpec,
};
pub use url::{has_scheme, resolve_url, resolved_url, starts_with, trim_end_slashes};

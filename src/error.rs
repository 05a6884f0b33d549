use vstd::prelude::*;
use vstd::string::to_string_from_display_ensures;

verus! {

/// The one error of this crate. `status` is the HTTP status code where a
/// response arrived with a status outside [200, 300), and 0 for failures
/// that carry no HTTP status (the transport failed, the body could not be
/// read, JSON could not be decoded).
#[derive(Debug, Clone)]
pub struct HttpError {
    pub status: u16,
    pub message: String,
}

pub type HttpResult<T> = Result<T, HttpError>;

/// The message of an error made from a JSON decode diagnostic.
pub open spec fn json_parse_message(details: Seq<char>) -> Seq<char> {
    "JSON parse error: "@ + details
}

/// How an error reads: `HTTP <status> - <message>`.
pub open spec fn error_text(status_text: Seq<char>, message: Seq<char>) -> Seq<char> {
    "HTTP "@ + status_text + " - "@ + message
}

impl HttpError {
    /// The error as text, with the status in decimal as std writes it.
    pub fn to_string(&self) -> (r: String)
        ensures
            exists|d: String|
                to_string_from_display_ensures::<u16>(&self.status, d) && r@ == error_text(
                    d@,
                    self.message@,
                ),
    {
        let digits = self.status.to_string();
        let mut r = String::from_str("HTTP ");
        r.append(digits.as_str());
        r.append(" - ");
        r.append(self.message.as_str());
        r
    }

    pub fn new(status: u16, message: &str) -> (r: HttpError)
        ensures
            r.status == status,
            r.message@ == message@,
    {
        HttpError { status, message: message.to_owned() }
    }

    /// A decode failure: status 0, and a message that carries serde_json's
    /// own description of what went wrong.
    pub fn json_parse(err: &serde_json::Error) -> (r: HttpError)
        ensures
            r.status == 0,
            "JSON parse error: "@.is_prefix_of(r.message@),
            exists|d: String|
                to_string_from_display_ensures::<serde_json::Error>(err, d) && r.message@
                    == json_parse_message(d@),
    {
        let details = err.to_string();
        let mut message = String::from_str("JSON parse error: ");
        message.append(details.as_str());
        assert(message@.subrange(0, "JSON parse error: "@.len() as int) =~= "JSON parse error: "@);
        HttpError { status: 0, message }
    }
}

} // verus!

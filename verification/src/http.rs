//! The HTTP call helper: which status codes allow the response body to be
//! parsed, the diagnostic messages of the failure taxonomy, and the mapping
//! from the outcome of one exchange to a result.
//!
//! The library performs no network I/O itself.  The application sends the
//! request, consults [`parse_allowed`] on the answered status before it
//! touches the body, and reports what happened as an [`HttpEvent`]; the
//! library then decides the call's result.

use vstd::prelude::*;
use vstd::string::StringExecFns;

verus! {

/// What came of one HTTP exchange, as the surrounding transport reports it.
pub enum HttpEvent<T> {
    /// The connection could not be established or the request not sent.
    NoConnection,
    /// The server answered with a status outside the accepted set; the body
    /// was not read.  Carries the observed status code and the transport's
    /// rendering of the status line (the code followed by its canonical
    /// reason phrase, e.g. `500 Internal Server Error`), which the
    /// diagnostic embeds.
    Rejected(u16, String),
    /// The status was accepted but the body did not parse as the expected
    /// shape.  Carries the parser's diagnostic.
    BodyParseFailed(String),
    /// The status was accepted and the body parsed as the expected shape.
    BodyParsed(T),
}

/// Whether a response with this status code is one whose body is parsed:
/// 200, or 404 where the endpoint tolerates it.  For any other status the
/// body is never read.
pub open spec fn parse_allowed_spec(status: u16, allow_not_found: bool) -> bool {
    status == 200 || (allow_not_found && status == 404)
}

/// Decides whether the body of a response with this status is to be parsed.
pub fn parse_allowed(status: u16, allow_not_found: bool) -> (r: bool)
    ensures
        r == parse_allowed_spec(status, allow_not_found),
{
    status == 200 || (allow_not_found && status == 404)
}

/// The diagnostic of a transport failure.
pub open spec fn transport_failure_message() -> Seq<char> {
    "HTTPS Error"@
}

/// The diagnostic of an unexpected status: it embeds the transport's
/// rendering of the status line as the transport handed it in.
pub open spec fn status_message_spec(status_line: Seq<char>) -> Seq<char> {
    "Expected 200 Status, got "@ + status_line
}

/// Renders the diagnostic of an unexpected status from the transport's
/// rendering of the status line.
pub fn status_message(status_line: &str) -> (s: String)
    ensures
        s@ == status_message_spec(status_line@),
{
    let mut s = String::from_str("Expected 200 Status, got ");
    s.append(status_line);
    s
}

/// The result of one exchange: the parsed payload on success, else the
/// diagnostic of the failure — transport failure, unexpected status, or
/// body parse failure.
pub open spec fn call_outcome_spec<T>(event: HttpEvent<T>) -> Result<T, Seq<char>> {
    match event {
        HttpEvent::NoConnection => Err(transport_failure_message()),
        HttpEvent::Rejected(_, status_line) => Err(status_message_spec(status_line@)),
        HttpEvent::BodyParseFailed(msg) => Err(msg@),
        HttpEvent::BodyParsed(t) => Ok(t),
    }
}

/// Maps the outcome of one exchange to the parsed payload or to the
/// diagnostic message of the failure.
pub fn do_http<T>(event: HttpEvent<T>) -> (r: Result<T, String>)
    ensures
        r is Ok <==> call_outcome_spec(event) is Ok,
        r is Ok ==> r->Ok_0 == call_outcome_spec(event)->Ok_0,
        r is Err ==> r->Err_0@ == call_outcome_spec(event)->Err_0,
{
    match event {
        HttpEvent::NoConnection => Err(String::from_str("HTTPS Error")),
        HttpEvent::Rejected(_, status_line) => Err(status_message(status_line.as_str())),
        HttpEvent::BodyParseFailed(msg) => Err(msg),
        HttpEvent::BodyParsed(t) => Ok(t),
    }
}

/// The URL of an endpoint: the base host, the interface path segment, the
/// endpoint name and a version tag, each separated by `/`.
pub open spec fn endpoint_url_spec(
    base: Seq<char>,
    interface: Seq<char>,
    endpoint: Seq<char>,
    version: Seq<char>,
) -> Seq<char> {
    base + "/"@ + interface + "/"@ + endpoint + "/v"@ + version + "/"@
}

/// Builds the URL of an endpoint.
pub fn endpoint_url(base: &str, interface: &str, endpoint: &str, version: &str) -> (u: String)
    ensures
        u@ == endpoint_url_spec(base@, interface@, endpoint@, version@),
{
    let mut u = String::from_str(base);
    u.append("/");
    u.append(interface);
    u.append("/");
    u.append(endpoint);
    u.append("/v");
    u.append(version);
    u.append("/");
    proof {
        assert(u@ =~= endpoint_url_spec(base@, interface@, endpoint@, version@));
    }
    u
}

} // verus!

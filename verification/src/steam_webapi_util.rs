//! The `GetServerInfo` endpoint of the `ISteamWebAPIUtil` interface.

use vstd::prelude::*;

use crate::errors::SteamWebAPIUtilError;
use crate::http::call_outcome_spec;
use crate::http::do_http;
use crate::http::endpoint_url;
use crate::http::endpoint_url_spec;
use crate::http::parse_allowed;
use crate::http::parse_allowed_spec;
use crate::http::HttpEvent;
use crate::Steam;

verus! {

/// The Web API server's report of its own time and status.
#[derive(Debug, Clone, PartialEq, Eq)]
pub struct ServerInfo {
    /// Unix timestamp of WebAPI server time.
    pub server_time: u32,
    /// Time string of WebAPI server time.
    pub server_time_string: String,
}

/// The accepted-status set of `GetServerInfo`: only a 200 answer has its
/// body parsed; any other status — 404 included — is rejected unread.
pub open spec fn server_info_parse_allowed_spec(status: u16) -> bool {
    parse_allowed_spec(status, false)
}

/// The URL of the `GetServerInfo` endpoint.
pub open spec fn server_info_url_spec() -> Seq<char> {
    endpoint_url_spec("https://api.steampowered.com"@, "ISteamWebAPIUtil"@, "GetServerInfo"@, "1"@)
}

impl Steam {
    /// Builds the URL that `GetServerInfo` is fetched from.  The endpoint
    /// takes no arguments, so the URL is the same for every handle.
    pub fn get_server_info_url(&self) -> (u: String)
        ensures
            u@ == server_info_url_spec(),
    {
        endpoint_url("https://api.steampowered.com", "ISteamWebAPIUtil", "GetServerInfo", "1")
    }

    /// Decides whether the body of a `GetServerInfo` response with this
    /// status is to be parsed.  The application consults this before it
    /// reads the body.
    pub fn get_server_info_parse_allowed(&self, status: u16) -> (r: bool)
        ensures
            r == server_info_parse_allowed_spec(status),
    {
        parse_allowed(status, false)
    }

    /// Concludes one `GetServerInfo` exchange: the payload is not nested in
    /// an envelope, so a parsed body is returned as it is, and every failure
    /// yields this endpoint's error with the diagnostic of the failure.
    pub fn get_server_info_result(&self, event: HttpEvent<ServerInfo>) -> (r: Result<
        ServerInfo,
        SteamWebAPIUtilError,
    >)
        ensures
            r is Ok <==> event is BodyParsed,
            event is BodyParsed ==> r->Ok_0 == event->BodyParsed_0,
            r is Err ==> r->Err_0 is GetServerInfo,
            r is Err ==> r->Err_0->GetServerInfo_0@ == call_outcome_spec(event)->Err_0,
    {
        match do_http(event) {
            Ok(info) => Ok(info),
            Err(msg) => Err(SteamWebAPIUtilError::GetServerInfo(msg)),
        }
    }
}

} // verus!

//! The `GetAppList` endpoint of the `ISteamApps` interface.

use vstd::prelude::*;

use crate::errors::SteamAppsError;
use crate::http::call_outcome_spec;
use crate::http::do_http;
use crate::http::endpoint_url;
use crate::http::endpoint_url_spec;
use crate::http::parse_allowed;
use crate::http::parse_allowed_spec;
use crate::http::HttpEvent;
use crate::Steam;

verus! {

/// Represents a Steam app.
#[derive(Debug, Clone, PartialEq, Eq)]
pub struct App {
    /// App ID of this application.
    pub appid: u32,
    /// The name of this application.
    pub name: String,
}

/// The complete list of public apps.
#[derive(Debug, Clone, PartialEq, Eq)]
pub struct AppList {
    /// The vector containing the applications.
    pub apps: Vec<App>,
}

/// The wire envelope of `GetAppList`: the service nests the payload under
/// the `applist` key.
#[derive(Debug, Clone, PartialEq, Eq)]
pub struct AppListEnvelope {
    /// The real payload.
    pub applist: AppList,
}

/// The accepted-status set of `GetAppList`: only a 200 answer has its body
/// parsed; any other status — 404 included — is rejected unread.
pub open spec fn app_list_parse_allowed_spec(status: u16) -> bool {
    parse_allowed_spec(status, false)
}

/// The URL of the `GetAppList` endpoint.
pub open spec fn app_list_url_spec() -> Seq<char> {
    endpoint_url_spec("https://api.steampowered.com"@, "ISteamApps"@, "GetAppList"@, "2"@)
}

impl Steam {
    /// Builds the URL that `GetAppList` is fetched from.  The endpoint takes
    /// no arguments, so the URL is the same for every handle.
    pub fn get_app_list_url(&self) -> (u: String)
        ensures
            u@ == app_list_url_spec(),
    {
        endpoint_url("https://api.steampowered.com", "ISteamApps", "GetAppList", "2")
    }

    /// Decides whether the body of a `GetAppList` response with this status
    /// is to be parsed.  The application consults this before it reads the
    /// body.
    pub fn get_app_list_parse_allowed(&self, status: u16) -> (r: bool)
        ensures
            r == app_list_parse_allowed_spec(status),
    {
        parse_allowed(status, false)
    }

    /// Concludes one `GetAppList` exchange: a parsed envelope yields the
    /// unwrapped app list, and every failure yields this endpoint's error
    /// with the diagnostic of the failure.
    pub fn get_app_list_result(&self, event: HttpEvent<AppListEnvelope>) -> (r: Result<
        AppList,
        SteamAppsError,
    >)
        ensures
            r is Ok <==> event is BodyParsed,
            event is BodyParsed ==> r->Ok_0 == event->BodyParsed_0.applist,
            r is Err ==> r->Err_0 is GetAppList,
            r is Err ==> r->Err_0->GetAppList_0@ == call_outcome_spec(event)->Err_0,
    {
        match do_http(event) {
            Ok(envelope) => Ok(envelope.applist),
            Err(msg) => Err(SteamAppsError::GetAppList(msg)),
        }
    }
}

} // verus!

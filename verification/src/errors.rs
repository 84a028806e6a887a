//! The error taxonomy: one closed error type per API domain, with one
//! variant per endpoint, each carrying a free-form diagnostic message.
//! Whether the diagnostic records a transport failure, an unexpected status
//! code or a parse failure is told by the message text alone.

use vstd::prelude::*;

verus! {

/// Errors of the `IEconService` endpoints.
#[derive(Debug, Clone, PartialEq, Eq)]
pub enum EconServiceError {
    /// The `GetTradeHistory` call failed; carries the diagnostic.
    GetTradeHistory(String),
}

impl EconServiceError {
    /// The carried diagnostic message.
    pub open spec fn message_spec(&self) -> Seq<char> {
        match self {
            EconServiceError::GetTradeHistory(m) => m@,
        }
    }

    /// The carried diagnostic message, as text.
    pub fn message(&self) -> (m: &str)
        ensures
            m@ == self.message_spec(),
    {
        match self {
            EconServiceError::GetTradeHistory(m) => m.as_str(),
        }
    }
}

/// Errors of the `ISteamApps` endpoints.
#[derive(Debug, Clone, PartialEq, Eq)]
pub enum SteamAppsError {
    /// The `GetAppList` call failed; carries the diagnostic.
    GetAppList(String),
}

impl SteamAppsError {
    /// The carried diagnostic message.
    pub open spec fn message_spec(&self) -> Seq<char> {
        match self {
            SteamAppsError::GetAppList(m) => m@,
        }
    }

    /// The carried diagnostic message, as text.
    pub fn message(&self) -> (m: &str)
        ensures
            m@ == self.message_spec(),
    {
        match self {
            SteamAppsError::GetAppList(m) => m.as_str(),
        }
    }
}

/// Errors of the `ISteamWebAPIUtil` endpoints.
#[derive(Debug, Clone, PartialEq, Eq)]
pub enum SteamWebAPIUtilError {
    /// The `GetServerInfo` call failed; carries the diagnostic.
    GetServerInfo(String),
}

impl SteamWebAPIUtilError {
    /// The carried diagnostic message.
    pub open spec fn message_spec(&self) -> Seq<char> {
        match self {
            SteamWebAPIUtilError::GetServerInfo(m) => m@,
        }
    }

    /// The carried diagnostic message, as text.
    pub fn message(&self) -> (m: &str)
        ensures
            m@ == self.message_spec(),
    {
        match self {
            SteamWebAPIUtilError::GetServerInfo(m) => m.as_str(),
        }
    }
}

} // verus!
